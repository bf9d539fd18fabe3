//! Players, queues and radio.

use rufin_core::playback::continuation::{
    canonical_position, continuation_page, has_continuation, prepare_continuation,
    ContinuationError, ContinuationHeader,
};
use rufin_core::playback::handoff::{
    check_local, check_transfer, discover_plex, leave_plex, leave_report, leave_step, select_plex,
    take_over, FoundPlayer, Leave, LeaveStep, Nearby, PlexContext, QueueState, SelectFacts,
};
use rufin_core::playback::plex::{
    capture_prefix, check_cancelled, check_server_url, insert_place, insertion, occurrence, plays_if_paused, plex_occurrence, queue_keys, queue_start, queue_timeline,
    receiver_occurrence, repeat, start_steps, status, wait_for_plex_occurrence, InsertPlace,
    Insertion, MediaParts, PlexError, PlexQueueItem, PlexQueuePlacement, PlexQueueWindow,
    QueuePlacement, QueueReorderTarget, QueueStart, RepeatMode, StartStep, Timeline,
    TransportStatus,
};
use rufin_core::playback::plex_queue::{
    check_membership, moves_to_front, name_items, reorder, window_complete, window_current,
    write_batches, Move,
};
use rufin_core::playback::plex_session::{
    auto_dj_applies, clear_ids, clears_queue, external_playback, import_missing_plex_queue_rows, keys_to_import,
    needs_source, observe, progress, ordered_sources, queue_update, restore, seeds_auto_dj,
    stays_local, choose_timeline_source, Candidate, Connection, LocalEntry, Observation, PlayerVolume, PlexAction, QueueUpdate, SessionCommand,
};
use rufin_core::playback::target::{MediaUris, PlaybackTarget, QueueInput};
use rufin_core::radio::{
    complete_materialization, queue_random, radio_candidates, requested, source_seed, Materialization, RadioSeed,
    SourceRadioSeed,
};

fn parts(source: &str, kind: &str, key: &str) -> Option<MediaParts> {
    Some(MediaParts {
        source_id: source.to_string(),
        kind: kind.to_string(),
        key: key.to_string(),
    })
}

fn item(id: u64, key: &str) -> PlexQueueItem {
    PlexQueueItem {
        occurrence_id: id,
        rating_key: key.to_string(),
        key: format!("/library/metadata/{key}"),
        media_uri: format!("plex:{key}"),
    }
}

fn window(ids: &[u64]) -> PlexQueueWindow {
    PlexQueueWindow {
        id: 7,
        version: 1,
        total: ids.len(),
        offset: 0,
        selected_item_id: ids.first().copied(),
        shuffled: false,
        items: ids.iter().map(|id| item(*id, &id.to_string())).collect(),
    }
}

fn timeline(state: &str, queue: Option<u64>, entry: Option<u64>) -> Timeline {
    Timeline {
        state: state.to_string(),
        time: Some(5),
        duration: 100,
        machine_identifier: Some("server".to_string()),
        play_queue_id: queue,
        play_queue_version: Some(1),
        play_queue_item_id: entry,
        volume: Some(40),
        repeat: Some(2),
        shuffle: Some(true),
    }
}

#[test]
fn plex_queue_admission_retains_occurrences_and_rejects_mixed_sources() {
    let source = "plex-test";
    let entry = |source: &str| parts(source, "track", "plex:track:42");
    let entries = vec![entry(source), entry(source), entry(source)];
    assert_eq!(queue_keys(&entries, source).unwrap(), ["42", "42", "42"]);
    let mixed = vec![entry(source), entry(source), entry(source), entry("another-profile")];
    assert!(queue_keys(&mixed, source).is_err());
    assert_eq!(entries.len(), 3);
    assert_eq!(plex_occurrence(&occurrence(7, 18)), Some(18));
    assert_eq!(plex_occurrence("local:18"), None);
}

#[test]
fn queue_load_confirmation_waits_through_stop_and_the_wrong_duplicate() {
    for (state, received) in [
        (Some("paused"), "paused"),
        (Some("playing"), "buffering"),
        (None, "buffering"),
    ] {
        let stopped = Some(timeline("stopped", None, None));
        assert_eq!(wait_for_plex_occurrence(&stopped, "server", 7, 501, state, 0), Ok(false));
        let wrong = Some(timeline("paused", Some(7), Some(500)));
        assert_eq!(wait_for_plex_occurrence(&wrong, "server", 7, 501, state, 100), Ok(false));
        let right = Some(timeline(received, Some(7), Some(501)));
        assert_eq!(wait_for_plex_occurrence(&right, "server", 7, 501, state, 200), Ok(true));
        assert_eq!(
            wait_for_plex_occurrence(&None, "server", 7, 501, state, 10_000),
            Err(PlexError::LoadTimeout)
        );
    }
}

#[test]
fn entries_are_known_by_their_names() {
    assert_eq!(occurrence(7, 18), "plex:7:18");
    assert_eq!(receiver_occurrence("a:b", 7, 18), "plex:a:b:7:18");
    assert_eq!(plex_occurrence("plex:a:b:7:18"), Some(18));
    assert_eq!(plex_occurrence("plex:18"), None);
    assert_eq!(plex_occurrence("plex:1:18446744073709551616"), None);
    assert_ne!(receiver_occurrence("a", 1, 2), receiver_occurrence("b", 1, 2));
    assert_eq!(
        queue_keys(&vec![None], "s").err(),
        Some(PlexError::MixedSources)
    );
    assert!(queue_keys(&vec![parts("s", "album", "plex:track:1")], "s").is_err());
    assert!(queue_keys(&vec![parts("s", "track", "emby:track:1")], "s").is_err());
}

#[test]
fn reports_are_read() {
    assert_eq!(status(&timeline("paused", None, None)), TransportStatus::Paused);
    assert_eq!(status(&timeline("odd", None, None)), TransportStatus::Stopped);
    assert_eq!(repeat(&timeline("playing", None, None)), RepeatMode::One);
    let report = queue_timeline(&window(&[4, 5]));
    assert_eq!(report.state, "paused");
    assert_eq!(report.play_queue_item_id, Some(4));
    assert_eq!(progress(Some(u64::MAX)), i64::MAX);
    let shown = external_playback(&timeline("playing", Some(7), Some(1)), &Some(window(&[1])), Some(3));
    assert_eq!(shown.volume, 40);
    assert!(shown.muted && shown.shuffle);
    assert_eq!(shown.queue_total, 1);
}

#[test]
fn queues_start_at_the_wanted_entry() {
    let items = window(&[1, 2, 3]).items;
    assert_eq!(
        queue_start(&items, Some(2), 1),
        Ok(QueueStart { initial: 1, selected: 1, switching: false })
    );
    let start = queue_start(&items, Some(9), 2).unwrap();
    assert_eq!(start, QueueStart { initial: 0, selected: 2, switching: true });
    assert_eq!(queue_start(&items, None, 3), Err(PlexError::OccurrenceNotRetained));
    let steps = start_steps(start);
    assert_eq!(steps[0], StartStep::Load { at: 0, paused: true });
    assert_eq!(steps[2], StartStep::SkipTo { at: 2 });
    assert_eq!(insertion(0, false, QueuePlacement::Now), Insertion::Nothing);
    assert_eq!(insertion(1, false, QueuePlacement::Now), Insertion::Replace);
    assert_eq!(insertion(1, true, QueuePlacement::Now), Insertion::Add);
    assert_eq!(
        insert_place(&Some(QueueReorderTarget::Before("plex:7:3".to_string())), QueuePlacement::Last, None),
        Ok(InsertPlace { placement: PlexQueuePlacement::After(3), first: Some(3) })
    );
    assert_eq!(
        insert_place(&Some(QueueReorderTarget::After("x".to_string())), QueuePlacement::Last, None),
        Err(PlexError::TargetGone)
    );
    assert_eq!(
        insert_place(&None, QueuePlacement::Next, None),
        Ok(InsertPlace { placement: PlexQueuePlacement::Next, first: None })
    );
}

#[test]
fn batches_keep_their_order() {
    let keys: Vec<String> = (0..5).map(|n| n.to_string()).collect();
    assert_eq!(write_batches(&keys, 2, true), vec![vec!["0", "1"], vec!["2", "3"], vec!["4"]]);
    assert_eq!(write_batches(&keys, 2, false), vec![vec!["4"], vec!["2", "3"], vec!["0", "1"]]);
    let mut queue = vec!["a".to_string(), "b".to_string()];
    for batch in write_batches(&keys, 2, false) {
        for (at, key) in batch.into_iter().enumerate() {
            queue.insert(1 + at, key);
        }
    }
    assert_eq!(queue, ["a", "0", "1", "2", "3", "4", "b"]);
}

fn apply(queue: &mut Vec<u64>, moves: &[Move]) {
    for step in moves {
        queue.retain(|id| *id != step.occurrence_id);
        let at = match step.after {
            Some(after) => queue.iter().position(|id| *id == after).unwrap() + 1,
            None => 0,
        };
        queue.insert(at, step.occurrence_id);
    }
}

#[test]
fn reordered_entries_stand_together() {
    let items = window(&[1, 2, 3, 4, 5]).items;
    let ids = |list: &[u64]| list.iter().map(|id| occurrence(7, *id)).collect::<Vec<_>>();
    let mut queue = vec![1, 2, 3, 4, 5];
    let plan = reorder(&ids(&[5, 2]), &QueueReorderTarget::Before(occurrence(7, 3)), &items).ok().unwrap();
    apply(&mut queue, &plan.moves);
    assert_eq!(queue, [1, 5, 2, 3, 4]);
    let mut queue = vec![1, 2, 3, 4, 5];
    let plan = reorder(&ids(&[1, 5]), &QueueReorderTarget::End, &items).ok().unwrap();
    apply(&mut queue, &plan.moves);
    assert_eq!(queue, [2, 3, 4, 1, 5]);
    let mut queue = vec![1, 2, 3, 4, 5];
    let plan = reorder(&ids(&[4]), &QueueReorderTarget::Before(occurrence(7, 1)), &items).ok().unwrap();
    apply(&mut queue, &plan.moves);
    assert_eq!(queue, [4, 1, 2, 3, 5]);
    assert_eq!(
        reorder(&ids(&[1]), &QueueReorderTarget::Before(occurrence(7, 9)), &items).err(),
        Some(PlexError::TargetOccurrenceGone)
    );
    let plan = reorder(&vec![occurrence(7, 2), "x".to_string()], &QueueReorderTarget::End, &items).ok().unwrap();
    assert_eq!(plan.moves.len(), 1);
    assert_eq!(plan.failure, Some(PlexError::OccurrenceGone));
    assert_eq!(name_items(&ids(&[3])), (vec![3], None));
    let mut queue = vec![1, 2, 3, 4, 5];
    apply(&mut queue, &moves_to_front(&window(&[2, 3, 4]).items, 2));
    assert_eq!(queue, [2, 3, 1, 4, 5]);
}

#[test]
fn membership_must_be_complete() {
    let whole = window(&[1, 2]);
    assert!(window_complete(&whole));
    assert!(window_current(&whole, &timeline("playing", Some(7), None)));
    assert_eq!(check_membership(1, &whole), Ok(()));
    assert_eq!(check_membership(2, &whole), Err(PlexError::QueueChanged));
    let mut cut = window(&[1, 2]);
    cut.total = 3;
    assert_eq!(check_membership(1, &cut), Err(PlexError::QueueIncomplete));
}

#[test]
fn incomplete_reports_are_ignored() {
    assert_eq!(observe(false, &timeline("buffering", None, None)), Observation::Ignore);
    assert_eq!(observe(true, &timeline("playing", Some(7), Some(1))), Observation::Ignore);
    assert_eq!(observe(false, &timeline("stopped", None, None)), Observation::NoQueue);
    let report = timeline("playing", Some(7), Some(2));
    let cached = Some(window(&[1, 2]));
    assert_eq!(queue_update(true, &cached, &report, &None), QueueUpdate::Reload);
    assert_eq!(queue_update(false, &None, &report, &None), QueueUpdate::Reload);
    assert_eq!(queue_update(false, &cached, &report, &Some(occurrence(7, 1))), QueueUpdate::Reselect);
    assert_eq!(queue_update(false, &cached, &report, &Some(occurrence(7, 2))), QueueUpdate::Keep);
    assert!(clears_queue(false, 1) && !clears_queue(false, 0));
    let queue = restore(&window(&[1, 2]), "s", &report);
    assert_eq!(queue.entries[1].occurrence, "plex:s:7:2");
    assert_eq!(queue.current_index, Some(1));
    assert_eq!(queue.progress_millis, 5);
}

#[test]
fn missing_rows_are_asked_for_once() {
    let known = vec!["plex:2".to_string()];
    assert_eq!(keys_to_import(&window(&[1, 2, 3]).items, &known), ["1", "3"]);
    let entry = |uri: &str, source: &str, key: &str| LocalEntry {
        media_uri: uri.to_string(),
        parts: parts(source, "track", key),
    };
    let entries = vec![
        entry("u1", "s", "plex:track:9"),
        entry("u2", "s", "plex:track:3"),
        entry("u3", "s", "plex:track:9"),
        entry("u4", "t", "plex:track:1"),
        entry("plex:2", "s", "plex:track:2"),
    ];
    assert_eq!(import_missing_plex_queue_rows(&entries, &known, "s"), ["3", "9"]);
    assert!(needs_source(&Some("b".to_string()), "a"));
    assert!(!needs_source(&None, "a"));
    let ids = vec!["a".to_string(), "b".to_string(), "c".to_string()];
    assert_eq!(ordered_sources(&ids, &Some("b".to_string())), ["b", "a", "c"]);
    assert_eq!(ordered_sources(&ids, &None), ["a", "b", "c"]);
    let closed = Candidate { source_id: "a".to_string(), server_id: None };
    assert_eq!(choose_timeline_source(&vec![closed], "x", &None), Err(PlexError::UnavailableServer));
}

#[test]
fn external_server_change_uses_the_configured_profile_and_preserves_unavailable_receiver() {
    let candidate = |source: &str, server: &str| Candidate {
        source_id: source.to_string(),
        server_id: Some(server.to_string()),
    };
    let configured = vec![
        candidate("first", "server-a"),
        candidate("second", "server-b"),
        candidate("preferred", "server-b"),
    ];
    let preferred = Some("preferred".to_string());
    let mut connection = Connection {
        source_id: "first".to_string(),
        server_id: "server-a".to_string(),
        queue: Some(window(&[])),
    };
    let server = |name: &str| Some(name.to_string());
    assert_eq!(connection.resolve_timeline_source(&None, &configured, &preferred), Ok(()));
    assert!(connection.queue.is_some() && connection.source_id == "first");
    assert_eq!(connection.resolve_timeline_source(&server("server-b"), &configured, &preferred), Ok(()));
    assert_eq!(connection.source_id, "preferred");
    assert!(connection.queue.is_none());
    assert_eq!(
        connection.resolve_timeline_source(&server("unconfigured-server"), &configured, &preferred),
        Err(PlexError::UnavailableServer)
    );
    assert_eq!(connection.source_id, "preferred");
    assert_ne!(receiver_occurrence("first", 7, 1), receiver_occurrence("preferred", 7, 1));
    assert_eq!(plex_occurrence(&receiver_occurrence("first", 7, 1)), Some(1));
    // The receiver endpoint refuses connections. Returning to Rufin must still work.
    let refused = || Err("connection refused".to_string());
    let stopped = Some(timeline("stopped", None, None));
    assert!(matches!(leave_report(&stopped, refused()), Ok(Leave::UseLocal)));
    let busy = Some(timeline("playing", Some(7), Some(1)));
    assert_eq!(leave_report(&busy, refused()).err().unwrap(), "connection refused");
    assert!(leave_report(&None, refused()).is_err());
    assert!(leave_report(&stopped, Ok(None)).is_err());
    let report = timeline("paused", None, None);
    assert!(matches!(leave_report(&busy, Ok(Some(report))), Ok(Leave::Follow(_))));
}

#[test]
fn commands_reach_the_player() {
    let mut volume = PlayerVolume { prior: None };
    let report = timeline("playing", Some(7), Some(1));
    assert!(matches!(volume.command(SessionCommand::PlayPause, &report), Ok(PlexAction::Pause)));
    assert!(matches!(volume.command(SessionCommand::SetMuted(true), &report), Ok(PlexAction::Volume(0))));
    let silent = Timeline { volume: Some(0), ..timeline("playing", Some(7), Some(1)) };
    assert!(matches!(volume.command(SessionCommand::SetMuted(true), &silent), Ok(PlexAction::Volume(0))));
    assert!(matches!(volume.command(SessionCommand::SetMuted(false), &silent), Ok(PlexAction::Volume(40))));
    assert_eq!(volume.prior, None);
    let nothing = timeline("stopped", None, None);
    assert_eq!(
        volume.command(SessionCommand::Remove("plex:7:1".to_string()), &nothing).err(),
        Some(PlexError::NoQueue)
    );
    assert_eq!(
        volume.command(SessionCommand::Activate("x".to_string()), &nothing).err(),
        Some(PlexError::NoSuchOccurrence)
    );
    let unplaced = timeline("stopped", Some(7), None);
    assert_eq!(
        volume.command(SessionCommand::MoveAfterCurrent("plex:7:1".to_string()), &unplaced).err(),
        Some(PlexError::NoCurrent)
    );
    assert!(matches!(
        volume.command(SessionCommand::Clear { include_current: false }, &report),
        Ok(PlexAction::Clear { keep: Some(1) })
    ));
    assert_eq!(clear_ids(&window(&[1, 2, 3]).items, Some(2)), [1, 3]);
    assert!(stays_local(&SessionCommand::CatalogChanged));
    assert!(!stays_local(&SessionCommand::Play));
}

#[test]
fn auto_dj_follows_the_player() {
    assert!(seeds_auto_dj(&parts("s", "track", "k"), "s"));
    assert!(!seeds_auto_dj(&parts("t", "track", "k"), "s") && !seeds_auto_dj(&None, "s"));
    let report = timeline("playing", Some(7), Some(2));
    assert!(auto_dj_applies(false, true, &report, "plex:7:2"));
    assert!(!auto_dj_applies(false, true, &report, "plex:7:3"));
    assert!(!auto_dj_applies(true, true, &report, "plex:7:2"));
    assert!(!auto_dj_applies(false, false, &report, "plex:7:2"));
    assert_eq!(check_cancelled(true), Err(PlexError::Cancelled));
}

fn select_facts(entries: Vec<Option<MediaParts>>) -> SelectFacts {
    let context = |source: &str, server: &str| PlexContext {
        source_id: source.to_string(),
        server_id: server.to_string(),
    };
    SelectFacts {
        cancelled: false,
        player_known: true,
        other_player: false,
        order: (0..entries.len() as u32).rev().collect(),
        entries,
        sources: vec![context("a", "one"), context("b", "two"), context("c", "two")],
        server: None,
        preferred: None,
    }
}

#[test]
fn players_are_selected_with_a_source() {
    let facts = select_facts(vec![parts("b", "track", "plex:track:1"), parts("b", "track", "plex:track:2")]);
    let selection = select_plex(&facts).ok().unwrap();
    assert_eq!(selection.source, 1);
    assert_eq!(selection.keys.unwrap(), ["2", "1"]);
    let mixed = select_facts(vec![parts("b", "track", "plex:track:1"), parts("a", "track", "plex:track:2")]);
    assert_eq!(select_plex(&mixed).err(), Some(PlexError::MixedSources));
    let foreign = select_facts(vec![parts("z", "track", "plex:track:1")]);
    assert_eq!(select_plex(&foreign).err(), Some(PlexError::UnavailableSource));
    let mut playing = select_facts(Vec::new());
    playing.server = Some("two".to_string());
    assert_eq!(select_plex(&playing).ok().unwrap().source, 1);
    playing.preferred = Some("c".to_string());
    assert_eq!(select_plex(&playing).ok().unwrap().source, 2);
    playing.server = Some("three".to_string());
    assert_eq!(select_plex(&playing).err(), Some(PlexError::SourceUnavailable));
    playing.sources = Vec::new();
    assert_eq!(select_plex(&playing).err(), Some(PlexError::NoSource));
    playing.player_known = false;
    assert_eq!(select_plex(&playing).err(), Some(PlexError::PlayerGone));
    playing.cancelled = true;
    assert_eq!(select_plex(&playing).err(), Some(PlexError::Cancelled));
}

#[test]
fn transfers_must_keep_the_queue() {
    let items = window(&[1, 2]).items;
    let keys = vec!["1".to_string(), "2".to_string()];
    assert_eq!(check_transfer(&items, &keys, Some(1)), Ok(1));
    assert_eq!(check_transfer(&items, &keys, Some(2)), Err(PlexError::CurrentLost));
    assert_eq!(
        check_transfer(&items, &vec!["1".to_string(), "3".to_string()], None),
        Err(PlexError::OrderLost)
    );
    let state = |current: &str| QueueState {
        entries: vec!["e".to_string()],
        order: vec![0],
        current: Some(current.to_string()),
    };
    assert_eq!(check_local(&state("e"), &state("e"), true), Ok(()));
    assert_eq!(check_local(&state("e"), &state("f"), true), Err(PlexError::LocalChanged));
    assert_eq!(check_local(&state("e"), &state("e"), false), Err(PlexError::NoReport));
}

#[test]
fn playback_comes_back_around_the_current_entry() {
    let ids: Vec<u64> = (0..100).collect();
    let items = window(&ids).items;
    assert_eq!(leave_plex(&items, Some(50)), Ok(Nearby { selected: 50, start: 30, end: 71 }));
    assert_eq!(leave_plex(&items, Some(5)), Ok(Nearby { selected: 5, start: 0, end: 26 }));
    assert_eq!(leave_plex(&items, Some(99)), Ok(Nearby { selected: 99, start: 79, end: 100 }));
    assert_eq!(leave_plex(&items, None), Err(PlexError::NoCurrentQueueOccurrence));
    let before = timeline("playing", Some(7), Some(1));
    let start = take_over(&before, &timeline("playing", Some(7), Some(1)), false).unwrap();
    assert!(start.plays && start.shuffled);
    assert_eq!(start.progress_millis, Some(5));
    assert_eq!(
        take_over(&before, &timeline("playing", Some(7), Some(2)), false),
        Err(PlexError::PlayerChanged)
    );
    assert_eq!(take_over(&before, &before, true), Err(PlexError::Cancelled));
}

#[test]
fn players_without_music_are_left_out() {
    let player = |id: &str, music: bool| FoundPlayer {
        machine_identifier: id.to_string(),
        name: format!("Player {id}"),
        supports_music_control: music,
    };
    let targets = discover_plex(vec![player("a", true), player("b", false), player("a", true)]);
    assert_eq!(targets.len(), 1);
    assert_eq!(targets.get("plex:a").map(|player| player.name.as_str()), Some("Player a"));
}

#[test]
fn explicit_collections_keep_their_full_scope_without_current() {
    let targets = [
        PlaybackTarget::Album("album:uri".into()),
        PlaybackTarget::AlbumKey(2),
        PlaybackTarget::Artist("artist:uri".into()),
        PlaybackTarget::AlbumArtist("artist:uri".into()),
        PlaybackTarget::ArtistKey(3, false),
        PlaybackTarget::ArtistKey(3, true),
        PlaybackTarget::Genre(4),
        PlaybackTarget::Mood(5),
        PlaybackTarget::Playlist(-6),
    ];
    for target in targets {
        let target = target.in_context("pinned".to_string());
        let expected = target.queue_input(None, None, 0);
        for source in [None, Some(99)] {
            let input = target.queue_input(source, Some(100), 0);
            assert_eq!(input, expected);
            assert!(matches!(input, QueueInput::Collection { folder: None, .. }));
        }
    }
}

#[test]
fn smart_playlist_inputs_keep_definition_scope_inputs() {
    let target = PlaybackTarget::SmartPlaylist(1).in_context("smart pin".to_string());
    for source in [None, Some(99)] {
        let folder = Some(100);
        let QueueInput::Smart { key, source: actual_source, folder: actual_folder, context_id, .. } =
            target.queue_input(source, folder, 0)
        else {
            panic!("expected smart input")
        };
        assert_eq!(key, 1);
        assert_eq!(actual_source, source);
        assert_eq!(actual_folder, folder);
        assert_eq!(context_id, "smart pin");
    }
}

#[test]
fn targets_have_names() {
    assert_eq!(PlaybackTarget::Playlist(-6).context_id(), "playlist:-6");
    assert_eq!(PlaybackTarget::ArtistKey(3, true).context_id(), "artist-key:3:true");
    assert_eq!(PlaybackTarget::Genre(i64::MIN).context_id(), format!("genre:{}", i64::MIN));
    assert_eq!(
        PlaybackTarget::Track("t".to_string()).queue_input(None, None, 0),
        QueueInput::Uris { order: vec!["t".to_string()], context_id: "track:t".to_string(), source_start: 0 }
    );
}

#[test]
fn continuations_are_checked() {
    assert_eq!(continuation_page(10, 8, 4), Ok(10));
    assert_eq!(continuation_page(10, 2, 4), Ok(6));
    assert_eq!(continuation_page(10, 11, 4), Err(ContinuationError::OutOfRange));
    assert_eq!(canonical_position(8, 1), 9);
    assert!(has_continuation(true, TransportStatus::Paused));
    assert!(!has_continuation(true, TransportStatus::Stopped));
    let header = |current: &str, play: Option<&str>, position: u64| ContinuationHeader {
        current: current.to_string(),
        play_id: play.map(str::to_owned),
        position_millis: position,
        repeat: RepeatMode::All,
        shuffled: true,
    };
    assert_eq!(
        prepare_continuation(header("a", None, 9), false).err(),
        Some(ContinuationError::Unavailable)
    );
    let mut prepared = prepare_continuation(header("a", Some("x"), u64::MAX), true).ok().unwrap();
    assert_eq!(prepared.progress_millis, i64::MAX);
    assert_eq!(prepared.session_identifier.as_deref(), Some("x"));
    assert!(prepared.shuffled && prepared.repeat_mode == RepeatMode::All);
    assert_eq!(
        prepared.apply_continuation(header("a", None, 7)),
        Err(ContinuationError::Changed)
    );
    assert_eq!(prepared.progress_millis, i64::MAX);
    assert_eq!(prepared.apply_continuation(header("a", Some("x"), 7)), Ok(()));
    assert_eq!((prepared.progress_millis, prepared.header.position_millis), (7, 7));
}

#[test]
fn targets_are_played_and_resolved() {
    let track = PlaybackTarget::Track("t".to_string()).in_context("page".to_string());
    let request = track.play(None, None, 0, QueuePlacement::Next);
    assert_eq!((request.anchor, request.placement), (0, QueuePlacement::Next));
    assert!(request.shuffled_start);
    assert!(matches!(request.input, QueueInput::Uris { context_id, .. } if context_id == "page"));
    assert!(matches!(
        track.resolve_media_uris(None, None, 0),
        MediaUris::Known(order) if order == ["t"]
    ));
    assert!(matches!(
        PlaybackTarget::SmartPlaylist(2).resolve_media_uris(Some(4), None, 8),
        MediaUris::Listed(QueueInput::Smart { key: 2, source: Some(4), now: 8, .. })
    ));
    assert!(queue_random(Vec::new(), QueuePlacement::Now).is_none());
    let queued = queue_random(vec!["r".to_string()], QueuePlacement::Last).unwrap();
    assert_eq!((queued.order.len(), queued.placement), (1, QueuePlacement::Last));
}

#[test]
fn radio_takes_the_source_first() {
    assert_eq!(requested(20, 500), (20, 20));
    assert_eq!(requested(600, 500), (500, 256));
    let list = |items: &[&str]| items.iter().map(|item| item.to_string()).collect::<Vec<_>>();
    let found = radio_candidates(list(&["b", "a", "b"]), 5);
    assert_eq!(found.native, ["b", "a", "b"]);
    assert_eq!(found.missing, 2);
    assert_eq!(found.excluded, ["a", "b"]);
    let found = radio_candidates(list(&["b", "a", "c"]), 2);
    assert_eq!(found.native, ["b", "a"]);
    assert_eq!(found.missing, 0);
    assert!(matches!(
        source_seed(RadioSeed::Track, Some("s"), parts("s", "track", "k"), None),
        Some(SourceRadioSeed::Track(key)) if key == "k"
    ));
    assert!(source_seed(RadioSeed::Track, Some("t"), parts("s", "track", "k"), None).is_none());
    assert!(matches!(
        source_seed(RadioSeed::AlbumArtist, None, None, Some("o".to_string())),
        Some(SourceRadioSeed::Artist(_))
    ));
    assert!(matches!(complete_materialization(Ok(Vec::new())), Materialization::Cancel));
    assert!(matches!(complete_materialization(Err("e".to_string())), Materialization::Fail(_)));
}

#[test]
fn players_are_left_with_or_without_a_queue() {
    let queue = Leave::Follow(timeline("playing", Some(7), Some(1)));
    assert_eq!(leave_step(&queue), LeaveStep::TakeBack { queue: 7 });
    let idle = Leave::Follow(timeline("stopped", None, None));
    assert_eq!(leave_step(&idle), LeaveStep::UseLocal);
    assert_eq!(leave_step(&Leave::UseLocal), LeaveStep::UseLocal);
}

#[test]
fn paused_players_are_told_to_play() {
    assert!(plays_if_paused(&timeline("paused", Some(7), Some(1))));
    assert!(!plays_if_paused(&timeline("playing", Some(7), Some(1))));
    assert!(!plays_if_paused(&timeline("buffering", Some(7), Some(1))));
}

#[test]
fn captures_are_named_by_their_entries() {
    assert_eq!(capture_prefix("capture:5:0").as_deref(), Some("capture:5:"));
    assert_eq!(capture_prefix("a:").as_deref(), Some("a:"));
    assert_eq!(capture_prefix(":x").as_deref(), Some(":"));
    assert_eq!(capture_prefix("entry"), None);
    assert_eq!(capture_prefix(""), None);
}

#[test]
fn servers_are_reached_by_urls() {
    assert_eq!(check_server_url("http://127.0.0.1:32400"), Ok(()));
    let refused = check_server_url("127.0.0.1").err().unwrap();
    assert_eq!(refused, url::Url::parse("127.0.0.1").err().unwrap().to_string());
    assert!(check_server_url("").is_err());
}

#[test]
fn players_are_asked_for_their_server_unless_a_queue_goes_along() {
    let mut facts = select_facts(vec![parts("b", "track", "plex:track:1")]);
    assert!(facts.sends_queue());
    facts.other_player = true;
    assert!(!facts.sends_queue());
    assert!(!select_facts(Vec::new()).sends_queue());
}
