//! Paths, releases, covers, metadata, scrobbling, playlists and the basic texts and lists.

use rufin_core::artwork::{
    digest_revision, png, prepare_database_source, PageSummary, Preparation,
};
use rufin_core::digest::{drawn_text, first_u64, hex_text, parse_hex};
use rufin_core::metadata::{
    after_write, album_metadata, artist_metadata, artwork_changed, checked_artwork,
    download_artwork, has_identity, identify_album_metadata, identify_artist_metadata,
    identify_track_metadata, native_lookup, track_metadata, write_end, write_reviewed_metadata,
    Lookup, MetadataAccess, MetadataItemId, WriteEnd, WriteResult, ARTWORK_MAX_BYTES,
};
use rufin_core::paths::{PathStyle, Paths};
use rufin_core::playlist_files::{
    after_update, check_link, discover, import_target, is_conflict, link_on, new_link,
    refresh_links, rename_file, settings, AfterUpdate, FileRefusal, LinkOutcome, LinkRefresh,
    PlaylistPathMode,
};
use rufin_core::playlists::{
    accept_playlist_result, add_playlist_tracks, configured_playlist_owner, create_playlist,
    enrich_imported_playlist, playlist_source, prune_shows, prunes, AddFailure, Added, Enrichment,
    PlaylistChange, PlaylistOwner, Publication, StoredOwner,
};
use rufin_core::release_update::{
    brew_candidates, brew_output_has_version, install, version_listed, BrewRun, InstallOutcome,
    PreviousUpdateResult,
};
use rufin_core::runtime::{
    BackupSettings, LocalAccessStatus, SourceOperation, SourceProgress, SourceProgressStage,
    StoredBackupSettings,
};
use rufin_core::scrobbling::{
    needs_credentials, preferences, LastFmSettings, LibreFmSettings, ListenBrainzSettings,
    ScrobblingConnection, ScrobblingPreferences, ScrobblingSettings,
};
use rufin_core::sorted::{insert_sorted, is_before};
use rufin_core::text::{
    decimal_text, ends_with, join_texts, keep_head, keep_tail, same_option, starts_with, trim,
};
use rufin_core::textmap::TextMap;

#[test]
fn homebrew_version_check_matches_a_complete_version_token() {
    assert!(brew_output_has_version(b"rufin 0.11.2\n", "0.11.2"));
    assert!(!brew_output_has_version(b"rufin 0.11.20\n", "0.11.2"));
    assert!(!brew_output_has_version(b"rufin\n", "0.11.2"));
}

#[test]
fn damaged_version_lists_are_still_read() {
    assert!(brew_output_has_version(b"\xff 1.0 0.9", "0.9"));
    assert!(brew_output_has_version(b"rufin \xff", "\u{fffd}"));
    assert!(!version_listed("1.0", "1.0"));
}

#[test]
fn what_is_installed_decides() {
    let run = |update: bool, upgrade: bool, installed: bool| BrewRun { update, upgrade, installed };
    assert_eq!(
        install(&run(false, false, true)),
        Ok(InstallOutcome::Updated { restart_required: true })
    );
    assert_eq!(
        install(&run(false, false, false)),
        Err("Homebrew could not refresh its package information.")
    );
    assert_eq!(install(&run(true, false, false)), Err("Homebrew could not upgrade Rufin."));
    assert_eq!(
        install(&run(true, true, false)),
        Err("Homebrew did not install the requested Rufin release.")
    );
    let places: Vec<String> = ["/a", "/b", "/a"].iter().map(|place| place.to_string()).collect();
    assert_eq!(brew_candidates(&places), ["/a", "/b"]);
    let failed = PreviousUpdateResult::Failed { version: "2".to_string(), message: "m".to_string() };
    assert_eq!(failed.version(), "2");
}

#[test]
fn backup_defaults_and_existing_settings_preserve_retention() {
    let read = |text: &str| {
        let value: serde_json::Value = serde_json::from_str(text).unwrap();
        let text = |name: &str| value[name].as_str().map(str::to_owned);
        BackupSettings::from_stored(StoredBackupSettings {
            enabled: value["enabled"].as_bool(),
            retention_count: value["retention_count"].as_u64().map(|count| count as u32),
            schedule: text("schedule"),
            destination_uri: text("destination_uri"),
            contents: text("contents"),
            encrypt: value["encrypt"].as_bool(),
        })
    };
    let defaults = BackupSettings::default();
    assert!(!defaults.enabled);
    assert_eq!(defaults.retention_count, 2);
    let existing = read(r#"{"enabled":true}"#);
    assert!(existing.enabled);
    assert_eq!(existing.retention_count, 2);
    let configured = BackupSettings { retention_count: 7, ..defaults };
    let restored = read(&format!("{{\"retention_count\":{}}}", configured.retention_count));
    assert_eq!(restored.retention_count, 7);
}

#[test]
fn adding_and_switching_gate_the_selected_library() {
    let progress =
        || SourceProgress { stage: SourceProgressStage::Connecting, completed: 0, total: None };
    assert!(SourceOperation::Adding { progress: progress() }.blocks_library());
    assert!(SourceOperation::Switching { target: "target".to_string(), progress: progress() }
        .blocks_library());
    assert!(!SourceOperation::Refreshing {
        source_id: "selected".to_string(),
        progress: progress()
    }
    .blocks_library());
    assert_eq!(LocalAccessStatus::default().total_track_count, 0);
}

#[test]
fn newly_fetched_background_artwork_reports_progress() {
    let fetched = PageSummary { total: 1, cached: 0, missing: 0 };
    let known = PageSummary { total: 1, cached: 1, missing: 0 };
    for (summary, expected) in [(fetched, 1), (known, 0)] {
        let mut preparation = Preparation::new();
        assert_eq!(preparation.page(summary).unwrap_or(0), expected);
    }
}

#[test]
fn manifest_reconciliation_without_fetch_work_stays_silent() {
    let mut preparation = Preparation::new();
    assert_eq!(preparation.page(PageSummary { total: 3, cached: 1, missing: 2 }), None);
    assert_eq!(preparation.page(PageSummary { total: 0, cached: 0, missing: 0 }), None);
    assert_eq!(preparation.page(PageSummary { total: 2, cached: 1, missing: 0 }), Some(5));
    assert_eq!(preparation.page(PageSummary { total: 1, cached: 1, missing: 0 }), Some(6));
    assert_eq!(
        preparation.page(PageSummary { total: usize::MAX, cached: 0, missing: 0 }),
        Some(usize::MAX)
    );
}

#[test]
fn completed_database_source_emits_no_preparation_progress() {
    let digest = [7u8; 32];
    assert_eq!(prepare_database_source(true, &digest), None);
    assert_eq!(prepare_database_source(false, &digest), Some(digest_revision(&digest)));
}

#[test]
fn revisions_start_their_digests() {
    let mut digest = [0u8; 32];
    digest[0] = 1;
    digest[7] = 2;
    digest[8] = 9;
    assert_eq!(digest_revision(&digest), 0x0200_0000_0000_0001);
    assert_eq!(first_u64(&digest), 0x0200_0000_0000_0001);
    assert_eq!(drawn_text(Ok(vec![0, 0x1f, 0xff])), Ok("001fff".to_string()));
    assert_eq!(drawn_text(Err("no chance".to_string())), Err("no chance".to_string()));
    assert_eq!(hex_text(&[0, 255, 18]), "00ff12");
    let chars: Vec<char> = "00Ff12".chars().collect();
    assert_eq!(parse_hex(&chars, 3), Some(vec![0, 255, 18]));
    assert_eq!(parse_hex(&chars, 2), None);
    assert_eq!(parse_hex(&chars, usize::MAX), None);
    assert_eq!(parse_hex(&chars[..5], 2), None);
    let long = hex_text(&[0xa5; 2000]).chars().collect::<Vec<char>>();
    assert_eq!(parse_hex(&long, 2000), Some(vec![0xa5; 2000]));
    assert_eq!(parse_hex(&['0', 'g'], 1), None);
}

#[test]
fn files_have_their_places() {
    let paths = Paths {
        style: PathStyle::Unix,
        config: "/c".to_string(),
        cache: "/k/".to_string(),
        data: "/d".to_string(),
        state: "/s".to_string(),
    };
    assert_eq!(paths.settings_file(), "/c/settings.json");
    assert_eq!(paths.store_file(), "/d/store/rufin-store.sqlite");
    assert_eq!(paths.catalog_file(), "/k/store/rufin-catalog.sqlite");
    assert_eq!(paths.legacy_store_file(), "/k/store/rufin-store.sqlite");
    assert_eq!(paths.artwork_dir(), "/k/covers");
    assert_eq!(paths.playback_dir(), "/k/playback");
    assert_eq!(paths.downloads_dir(), "/d/downloads");
    assert_eq!(paths.release_history_file(), "/k/releases.json");
    assert_eq!(paths.state_dir(), "/s");
    assert_eq!(paths.config_dir(), "/c");
    assert_eq!(paths.cache_dir(), "/k/");
    assert_eq!(paths.data_dir(), "/d");
    assert_eq!(
        paths.prepare(),
        ["/d/store", "/k/covers", "/k/playback", "/d/downloads", "/c"]
    );
    for (base, name) in [("/a", "b"), ("/a/", "b"), ("", "b"), ("/", "b/c"), ("a", "")] {
        let expected = std::path::Path::new(base).join(name);
        assert_eq!(PathStyle::Unix.join(base, name), expected.to_str().unwrap());
    }
}

#[test]
fn suggestions_are_looked_for_where_it_is_allowed() {
    let id = Some("x".to_string());
    let blank = Some(" ".to_string());
    assert_eq!(
        identify_album_metadata(true, &blank, &id, true),
        [Lookup::Exact, Lookup::Native, Lookup::External]
    );
    assert_eq!(identify_album_metadata(true, &blank, &None, false), [Lookup::External]);
    assert_eq!(identify_artist_metadata(false, &id, true), [Lookup::Native]);
    assert!(identify_artist_metadata(false, &id, false).is_empty());
    assert_eq!(identify_track_metadata(true), [Lookup::External]);
    assert!(identify_track_metadata(false).is_empty());
    let track = MetadataItemId::Track("t".to_string());
    let album = MetadataItemId::Album("a".to_string());
    assert_eq!(write_reviewed_metadata(true, &album), MetadataAccess::Source);
    assert_eq!(write_reviewed_metadata(false, &track), MetadataAccess::File);
    assert_eq!(write_reviewed_metadata(false, &album), MetadataAccess::Unavailable);
    assert_eq!(track_metadata(false), MetadataAccess::File);
    assert_eq!(album_metadata(false), MetadataAccess::Unavailable);
    assert_eq!(artist_metadata(true), MetadataAccess::Source);
    let failed = || Err("cache".to_string());
    assert!(matches!(write_end(WriteResult::Saved, Ok(true)), WriteEnd::Done));
    assert!(matches!(write_end(WriteResult::Failed, failed()), WriteEnd::EditFailed));
    assert!(matches!(
        write_end(WriteResult::Saved, failed()),
        WriteEnd::SavedRefreshFailed(error) if error == "cache"
    ));
    assert!(native_lookup(Some("emby")) && !native_lookup(Some("plex")) && !native_lookup(None));
    assert!(has_identity(&Some(" x ".to_string())));
    assert!(!has_identity(&Some(" \u{2003}".to_string())) && !has_identity(&None));
    assert_eq!(MetadataItemId::Album("u".to_string()).media_uri(), "u");
    assert_eq!(download_artwork(true), Ok(()));
    assert_eq!(download_artwork(false), Err("External metadata lookup is disabled"));
    assert_eq!(checked_artwork(ARTWORK_MAX_BYTES), Ok(()));
    assert_eq!(checked_artwork(ARTWORK_MAX_BYTES + 1), Err("Artwork exceeds 32 MiB"));
    let after = after_write(WriteResult::PartiallySaved { published: true }, true, true);
    assert!(after.publishes && after.drops_cover);
    let after = after_write(WriteResult::Failed, true, true);
    assert!(!after.publishes && !after.drops_cover);
    assert!(!after_write(WriteResult::Saved, true, false).drops_cover);
    assert!(artwork_changed(true, true) && !artwork_changed(false, true));
}

fn accounts() -> ScrobblingSettings {
    let text = |text: &str| text.to_string();
    ScrobblingSettings {
        lastfm: LastFmSettings {
            enabled: false,
            api_key: text("key"),
            api_secret: text("secret"),
            username: text("ann"),
            session_key: text("session"),
            now_playing_enabled: true,
        },
        librefm: LibreFmSettings {
            enabled: true,
            username: text("bob"),
            session_key: String::new(),
            now_playing_enabled: false,
        },
        listenbrainz: ListenBrainzSettings {
            enabled: false,
            user_token: text("token"),
            now_playing_enabled: true,
        },
    }
}

#[test]
fn accounts_are_shown_and_kept() {
    let mut settings = accounts();
    let mut shown = preferences(&settings);
    assert!(shown.lastfm.connected && !shown.librefm.connected);
    assert_eq!(shown.lastfm.username, "ann");
    shown.lastfm.enabled = true;
    settings.save(&shown);
    assert!(settings.lastfm.enabled);
    assert_eq!(settings.lastfm.session_key, "session");
    assert_eq!(settings.lastfm.username, "ann");
    let request = ScrobblingConnection::LastFm {
        api_key: "k2".to_string(),
        api_secret: "s2".to_string(),
    };
    settings.save_session(&request, "eve".to_string(), "new".to_string());
    assert_eq!(settings.lastfm.username, "eve");
    assert_eq!(settings.lastfm.session_key, "new");
    assert_eq!(settings.lastfm.api_key, "k2");
    assert_eq!(settings.librefm.username, "bob");
    settings.save_session(&ScrobblingConnection::LibreFm, "dan".to_string(), "s".to_string());
    assert_eq!(settings.librefm.username, "dan");
    let mut shown = preferences(&settings);
    shown.listenbrainz.user_token = " new ".to_string();
    settings.save_credential(&shown);
    assert_eq!(settings.listenbrainz.user_token, "new");
    assert_eq!(settings.lastfm.username, "eve");
    shown.lastfm.api_secret = "other".to_string();
    settings.save_credential(&shown);
    assert_eq!(settings.lastfm.api_secret, "other");
    assert!(settings.lastfm.username.is_empty() && settings.lastfm.session_key.is_empty());
    assert!(!needs_credentials(false, &ScrobblingPreferences::default(), &ScrobblingSettings {
        lastfm: LastFmSettings {
            enabled: false,
            api_key: String::new(),
            api_secret: String::new(),
            username: String::new(),
            session_key: String::new(),
            now_playing_enabled: false,
        },
        librefm: LibreFmSettings {
            enabled: false,
            username: String::new(),
            session_key: String::new(),
            now_playing_enabled: false,
        },
        listenbrainz: ListenBrainzSettings {
            enabled: false,
            user_token: String::new(),
            now_playing_enabled: false,
        },
    }));
}

#[test]
fn changed_files_and_playlists_are_in_conflict() {
    let mut link = new_link(7, None, "/p/a.m3u".to_string(), true);
    assert!(link.dirty && link.auto_refresh);
    assert_eq!(link.reload_on(false), Err(FileRefusal::LocalConflict));
    assert_eq!(link.reload_on(true), Ok(()));
    assert_eq!(link.save_on(false, "1"), Err(FileRefusal::FileConflict));
    assert_eq!(link.save_on(true, "1"), Ok(()));
    assert_eq!(refresh_links(&link, None, "1"), LinkRefresh::Reload);
    assert_eq!(refresh_links(&link, Some("s"), "1"), LinkRefresh::Skip);
    assert!(link.after_edit(true) && !link.after_edit(false));
    link.auto_save = Some(false);
    assert!(!link.after_edit(true));
    link.remember(Some("s".to_string()), "/q".to_string(), Some(PlaylistPathMode::Relative), "1".to_string());
    assert!(!link.dirty && link.path == "/q");
    assert_eq!(refresh_links(&link, Some("s"), "1"), LinkRefresh::Nothing);
    link.error = Some("e".to_string());
    assert_eq!(refresh_links(&link, None, "1"), LinkRefresh::ClearError);
    assert!(!link.record_result("e") && link.record_result("f"));
    link.auto_refresh = false;
    assert_eq!(refresh_links(&link, None, "2"), LinkRefresh::SaveEdits);
    assert_eq!(link.save_on(false, "1"), Ok(()));
    assert!(is_conflict(FileRefusal::FileConflict.text()) && !is_conflict("x"));
}

#[test]
fn files_are_linked_once() {
    assert_eq!(check_link(1, false, true, None), Err(FileRefusal::ProviderPlaylist));
    assert_eq!(check_link(1, true, false, None), Err(FileRefusal::UnsupportedFormat));
    assert_eq!(check_link(1, true, true, Some(2)), Err(FileRefusal::LinkedElsewhere));
    assert_eq!(check_link(1, true, true, Some(1)), Ok(()));
    let link = || new_link(7, None, "/a".to_string(), false);
    assert_eq!(import_target(false, &Some(link())), Ok(None));
    assert_eq!(import_target(true, &Some(link())), Ok(Some(7)));
    assert_eq!(
        import_target(true, &Some(new_link(7, None, "/a".to_string(), true))),
        Err(FileRefusal::LocalConflict)
    );
    assert!(matches!(link_on(true, None), LinkOutcome::Publish));
    assert!(matches!(link_on(false, None), LinkOutcome::Unlink));
    assert!(matches!(link_on(false, Some(link())), LinkOutcome::Restore(_)));
    assert!(discover(false, false) && !discover(true, false) && !discover(false, true));
    let rename = |path: &str, name: &str| rename_file(None, path, name, true);
    assert_eq!(rename("/p/a.m3u", "b.m3u"), Ok(Some("/p/b.m3u".to_string())));
    assert_eq!(rename("music//a.m3u", "b.m3u"), Ok(Some("music//b.m3u".to_string())));
    assert_eq!(rename("a.m3u", "b.m3u"), Ok(Some("b.m3u".to_string())));
    assert_eq!(rename("/p/a.m3u", "a.m3u"), Ok(None));
    for name in ["", ".", "..", "x/y", "x\\y"] {
        assert_eq!(rename("/p/a", name), Err(FileRefusal::InvalidName));
    }
    let other = rename_file(None, "/p/a", "b.pls", false);
    assert_eq!(other, Err(FileRefusal::OtherFormat));
}

#[test]
fn local_files_are_renamed_as_their_system_names_them() {
    let name = "b.m3u";
    let renamed = |style: PathStyle, path: &str| match rename_file(Some(style), path, name, true) {
        Ok(Some(next)) => next,
        Ok(None) => path.to_string(),
        Err(_) => panic!("the name is plain"),
    };
    let parts = ["", "/", ".", "..", "a", "a.m3u", "//", "/./", "/../"];
    for first in parts {
        for second in parts {
            for third in parts {
                for fourth in parts {
                    let path = format!("{first}{second}{third}{fourth}");
                    let expected = std::path::Path::new(&path).with_file_name(name);
                    assert_eq!(renamed(PathStyle::Unix, &path), expected.to_str().unwrap(), "{path}");
                }
            }
        }
    }
    assert_eq!(renamed(PathStyle::Unix, "music//a.m3u"), "music/b.m3u");
    assert_eq!(renamed(PathStyle::Windows, "C:\\m\\a.m3u"), "C:\\m\\b.m3u");
    assert_eq!(renamed(PathStyle::Windows, "C:\\a.m3u"), "C:\\b.m3u");
    assert_eq!(renamed(PathStyle::Windows, "C:a.m3u"), "C:b.m3u");
    assert_eq!(renamed(PathStyle::Windows, "m/a.m3u"), "m\\b.m3u");
    assert_eq!(renamed(PathStyle::Windows, "\\\\?\\C:\\m\\a.m3u"), "\\\\?\\C:\\m\\b.m3u");
    let elsewhere = rename_file(Some(PathStyle::Windows), "C:\\a.m3u", "D:b.m3u", true);
    assert_eq!(elsewhere, Ok(Some("D:b.m3u".to_string())));
}

#[test]
fn paths_are_the_same_where_their_parts_are() {
    let parts = ["", "/", ".", "..", "a", "b", "//", "/./"];
    let mut paths: Vec<String> = Vec::new();
    for first in parts {
        for second in parts {
            for third in parts {
                paths.push(format!("{first}{second}{third}"));
            }
        }
    }
    for a in &paths {
        for b in &paths {
            let expected = std::path::Path::new(a) == std::path::Path::new(b);
            assert_eq!(PathStyle::Unix.is_same(a, b), expected, "{a} {b}");
        }
    }
    let windows = PathStyle::Windows;
    assert!(windows.is_same("C:\\m\\a", "C:/m/./a/"));
    assert!(windows.is_same("C:\\m\\a", "c:\\m\\a"));
    assert!(!windows.is_same("C:\\m\\a", "C:\\M\\a"));
    assert!(windows.is_same("\\\\s\\m\\a", "//s/m/a"));
    assert!(!windows.is_same("\\\\s\\m\\a", "\\s\\m\\a"));
    assert!(!windows.is_same("C:\\m\\a", "D:\\m\\a"));
    assert!(!windows.is_same("C:\\m\\a", "C:m\\a"));
    assert!(!PathStyle::Unix.is_same("m\\a", "m/a"));
}

#[test]
fn joined_paths_follow_their_system() {
    let windows = PathStyle::Windows;
    assert_eq!(windows.join("C:\\m", "a/b"), "C:\\m\\a/b");
    assert_eq!(windows.join("C:\\", "a"), "C:\\a");
    assert_eq!(windows.join("C:", "a"), "C:a");
    assert_eq!(windows.join("m/", "a"), "m/a");
    assert_eq!(windows.join("\\\\?\\C:\\m", "a/./b\\c"), "\\\\?\\C:\\m\\a\\b\\c");
    assert_eq!(windows.join("C:\\m", "D:a"), "D:a");
    let paths = Paths {
        style: windows,
        config: "C:\\c".to_string(),
        cache: "k".to_string(),
        data: "d\\".to_string(),
        state: "s".to_string(),
    };
    assert_eq!(paths.settings_file(), "C:\\c\\settings.json");
    assert_eq!(paths.store_file(), "d\\store\\rufin-store.sqlite");
    for name in ["..\\x", "a\\..\\x", "..", "C:x", "C:\\x", "\\x", "/x", "\\\\?\\C:\\x", ""] {
        assert!(!windows.accepts(name), "{name}");
    }
    assert!(windows.accepts("a\\..b/c:d"));
    assert!(PathStyle::Unix.accepts("..\\x"));
    assert!(PathStyle::Unix.accepts("C:\\x"));
}

#[test]
fn covers_are_encoded() {
    let pixels = [10u8, 20, 30, 255].repeat(6);
    let bytes = png(&pixels, 3, 2).unwrap();
    assert!(bytes.starts_with(b"\x89PNG"));
    let read = image::load_from_memory(&bytes).unwrap().to_rgba8();
    assert_eq!((read.dimensions(), read.into_raw()), ((3, 2), pixels));
    assert!(png(&[], 0, 0).is_err());
    let mut digest = [0u8; 32];
    digest[0] = 7;
    assert_eq!(prepare_database_source(true, &digest), None);
    assert_eq!(prepare_database_source(false, &digest), Some(7));
}

#[test]
fn playlists_have_owners() {
    let stored = |source_key: Option<i64>, has_identity: bool, file_library: bool| {
        Some(StoredOwner { source_key, has_identity, file_library })
    };
    assert_eq!(playlist_source(None), Err("Playlist no longer exists"));
    assert_eq!(playlist_source(stored(None, false, false)), Ok(PlaylistOwner::Local(None)));
    assert_eq!(playlist_source(stored(Some(3), true, true)), Ok(PlaylistOwner::Local(Some(3))));
    assert_eq!(playlist_source(stored(Some(3), true, false)), Ok(PlaylistOwner::Server(3)));
    assert_eq!(playlist_source(stored(Some(3), false, false)), Err("Playlist owner is unavailable"));
    assert_eq!(configured_playlist_owner(false, 3).source_key(), Some(3));
    assert_eq!(PlaylistOwner::Local(None).source_key(), None);
    assert_eq!(accept_playlist_result(None, true, Some(1), Some(1)), Publication::Warn);
    assert_eq!(accept_playlist_result(Some(false), true, Some(1), Some(1)), Publication::Nothing);
    assert_eq!(accept_playlist_result(Some(true), true, Some(1), Some(1)), Publication::AcceptScan);
    assert_eq!(accept_playlist_result(Some(true), true, Some(1), Some(2)), Publication::Announce);
    assert!(prunes(PlaylistChange::Delete, Some(true)));
    assert!(prunes(PlaylistChange::RemoveEntries, Some(true)));
    assert!(!prunes(PlaylistChange::Rename, Some(true)));
    assert!(!prunes(PlaylistChange::MoveEntry, Some(true)));
    assert!(!prunes(PlaylistChange::Delete, None));
    assert_eq!(create_playlist(false, None, false), Ok(PlaylistOwner::Local(None)));
    assert_eq!(create_playlist(true, Some(3), false), Ok(PlaylistOwner::Server(3)));
    assert_eq!(create_playlist(true, None, true), Err("Source access is unavailable"));
    assert!(matches!(add_playlist_tracks(Ok(0)), Added::Accept { changed: false }));
    assert!(matches!(
        add_playlist_tracks(Err(AddFailure::SourceMismatch("s".to_string()))),
        Added::SourceMismatch(source) if source == "s"
    ));
    assert!(matches!(
        add_playlist_tracks(Err(AddFailure::Other("e".to_string()))),
        Added::Warn(error) if error == "e"
    ));
    assert_eq!(enrich_imported_playlist(None, true, true), Enrichment::Nothing);
    assert_eq!(enrich_imported_playlist(Some(8), false, true), Enrichment::PageAfter(8));
    assert_eq!(
        enrich_imported_playlist(Some(8), true, false),
        Enrichment::Import { sets_up_source: true }
    );
    assert!(prune_shows(true, true) && !prune_shows(true, false));
}

#[test]
fn texts_are_cut_and_joined() {
    assert_eq!(decimal_text(u64::MAX), u64::MAX.to_string());
    assert_eq!(decimal_text(0), "0");
    assert_eq!(trim("\u{3000} a b\n"), "a b");
    assert_eq!(keep_tail("aéb", 3), "éb");
    assert_eq!(keep_tail("aéb", 2), "b");
    assert_eq!(keep_head("aéb", 2), "a");
    assert_eq!(keep_head("aéb", 9), "aéb");
    let list = vec!["a".to_string(), "b".to_string()];
    assert_eq!(join_texts(&list, ", "), "a, b");
    assert_eq!(join_texts(&[], ", "), "");
    assert!(starts_with("abc", "ab") && !starts_with("a", "ab"));
    assert!(ends_with("abc", "bc") && !ends_with("c", "bc"));
    assert!(same_option(&None, &None) && !same_option(&None, &Some(String::new())));
}

#[test]
fn lists_and_maps_are_kept_in_order() {
    let mut list: Vec<String> = Vec::new();
    for text in ["b", "a", "é", "b", "ab", ""] {
        insert_sorted(&mut list, text.to_string());
    }
    let mut expected: Vec<String> = ["b", "a", "é", "ab", ""].iter().map(|t| t.to_string()).collect();
    expected.sort();
    assert_eq!(list, expected);
    assert!(is_before("", "a") && is_before("\u{ffff}", "\u{10000}") && !is_before("a", "a"));
    let mut map: TextMap<u32> = TextMap::new();
    map.insert("x".to_string(), 1);
    map.insert("y".to_string(), 2);
    map.insert("x".to_string(), 3);
    assert_eq!(map.len(), 2);
    assert_eq!(map.entry(0), ("y", &2));
    assert_eq!(map.entry(1), ("x", &3));
    assert_eq!(map.remove("y"), Some(2));
    assert_eq!(map.remove("y"), None);
    assert_eq!(map.get("x"), Some(&3));
}

#[test]
fn playlist_files_are_shown_and_updated() {
    let mut link = new_link(4, Some("s".to_string()), "/lists/a.m3u".to_string(), false);
    link.update(false, Some(true), PlaylistPathMode::Relative);
    assert!(!link.auto_refresh && link.auto_save == Some(true));
    assert!(matches!(link.path_mode, PlaylistPathMode::Relative));
    assert_eq!((link.playlist, link.path.as_str()), (4, "/lists/a.m3u"));
    let shown = settings(Some(link), None, true, true);
    assert_eq!(shown.display_path.as_deref(), Some("/lists/a.m3u"));
    assert!(shown.can_link && shown.source_auto_save);
    let local = Some("/home/a.m3u".to_string());
    assert_eq!(settings(shown.link, local.clone(), true, true).display_path, local);
    assert!(settings(None, local, false, false).display_path.is_none());
    assert_eq!(after_update(true, true), AfterUpdate { saves_edits: false, publishes: false });
    assert_eq!(after_update(false, true), AfterUpdate { saves_edits: true, publishes: true });
    assert_eq!(after_update(false, false), AfterUpdate { saves_edits: true, publishes: false });
}
