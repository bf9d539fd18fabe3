//! Connect: settings, actions, events, files and media.

use rufin_core::connect::actions::{Action, Control, OpeningOutcome, Shown, Step};
use rufin_core::connect::adoption::{file_keys, paired_steps, ImportStep, PairedStep, ProfileKeys};
use rufin_core::connect::events::{Follow, NetworkEvent};
use rufin_core::connect::exchange::{
    entry_version, exchange_import, exchange_keys, has_entry, is_profile_file, own_path, FileEntry, FileExchange,
};
use rufin_core::connect::media::{
    captured_occurrence, corresponding_path, direct_source, download_key, file_uri, file_uri_of, mapped_root, media_key, path_extension, prepared_path, published_name,
    removes_other, removes_previous, selected_media_path, serve_media, serving_key, set_extension, store_media, store_target,
    versioned_path, DirectFile, MediaError, MediaFile, Serve, ServeFacts, StoreAction, StoreTarget,
    TrackReference,
};
use rufin_core::connect::owner::{Owner, Refusal, Session};
use rufin_core::connect::portable::{
    decrypt, encrypt, fitting_key, frame, new_key, open_content, unframe, FileError, OpenedFile,
};
use rufin_core::connect::profile::{
    change_key, current_track, has_roots, is_shared, project_record, record_kind, refreshed_device, replaces_key, CurrentTrack,
    ExchangeTimer, KeyChange, Presence, ProfileRecord, Projection, QueueTransfer, RecordKind,
    RecordStep, SourceKind, Startup, Transfers,
};
use rufin_core::connect::resolve::{
    accept_offer, local_original, media_destination, prepares_locally, resolve_media, reusable_media, unavailable, Phase, Query,
    transfer_hash, Reply, Reuse, ReuseFacts, Search, Wanted,
};
use rufin_core::connect::secrets::{
    credentials, documents_file, error, file_key, identity_key, identity_reference, kept_keys,
    kept_signing_key, keys_to_keep, peer_number, previous_file_keys, request_id, request_name, transfer_name, CredentialStep,
};
use rufin_core::connect::settings::{
    continued_queue, local_profile_folder, ConnectSettings, Destination, Encoding, SettingsEdit,
};
use rufin_core::connect::status::{connection_label, Connection, Device, Notice, Pairing, Status};
use rufin_core::paths::PathStyle;
use rufin_core::textmap::TextMap;

fn owner() -> Owner {
    let status = Status::initial(ConnectSettings::default(), PathStyle::Unix, "/data/connect", None);
    Owner { status, joining: false, network_open: false, session: None }
}

fn session(profile: &str) -> Session {
    Session {
        profile: profile.to_string(),
        identity: "me".to_string(),
        receiving: TextMap::new(),
        catalog_changed: false,
    }
}

fn device(id: &str, enrolled: bool) -> Device {
    Device::fresh(id.to_string(), format!("name of {id}"), true, enrolled)
}

fn pairing(session: &str) -> Pairing {
    let word = || "cat".to_string();
    Pairing {
        session: session.to_string(),
        peer: "p".to_string(),
        name: "Phone".to_string(),
        emoji: [word(), word(), word(), word(), word(), word(), word()],
        approved: false,
        verified: false,
    }
}

#[test]
fn saved_settings_enable_only_remembered_legacy_profiles() {
    for (saved, enabled) in [
        ("{}", false),
        (r#"{"name":"Work Laptop"}"#, false),
        (r#"{"profile":null}"#, false),
        (r#"{"profile":"shared-profile"}"#, true),
        (r#"{"profile":"shared-profile","enabled":false}"#, false),
        (r#"{"enabled":true}"#, true),
    ] {
        let value: serde_json::Value = serde_json::from_str(saved).unwrap();
        let mut config = ConnectSettings::default();
        config.profile = value["profile"].as_str().map(str::to_owned);
        config.enabled = value["enabled"].as_bool().unwrap_or(false);
        let config = ConnectSettings::from_device_file(value.get("enabled").is_some(), config);
        assert_eq!(config.enabled, enabled, "{saved}");
    }
}

#[test]
fn default_settings_are_off_and_nearby() {
    let settings = ConnectSettings::default();
    assert!(!settings.enabled);
    assert!(settings.nearby);
    assert_eq!(settings.name, "Rufin");
    assert!(settings.destination.is_none());
}

#[test]
fn edits_change_what_they_name() {
    let mut settings = ConnectSettings::default();
    settings.apply(SettingsEdit::Enabled(true), PathStyle::Unix, "/d");
    settings.apply(SettingsEdit::FileProfile("p".to_string()), PathStyle::Unix, "/d");
    settings.apply(SettingsEdit::Profile("p".to_string()), PathStyle::Unix, "/d");
    settings.apply(
        SettingsEdit::Folder {
            source: "s".to_string(),
            root_id: Some("r".to_string()),
            path: "/music".to_string(),
        },
        PathStyle::Unix,
        "/d",
    );
    assert!(settings.has_file_profile("p"));
    assert!(!settings.has_file_profile("q"));
    assert_eq!(settings.folders.get("s/r").map(String::as_str), Some("/music"));
    settings.apply(
        SettingsEdit::Folder { source: "s".to_string(), root_id: Some("r".to_string()), path: String::new() },
        PathStyle::Unix,
        "/d",
    );
    assert!(settings.folders.get("s/r").is_none());
    settings.apply(SettingsEdit::OwnFolder("p".to_string()), PathStyle::Unix, "/d");
    let folder = format!("/d/{}", blake3::hash(b"p").to_hex());
    assert_eq!(local_profile_folder(PathStyle::Unix, "/d", "p"), folder);
    match &settings.destination {
        Some(Destination::Local { path }) => assert_eq!(path, &folder),
        _ => panic!("a local destination"),
    }
    settings.apply(SettingsEdit::Adopting("q".to_string()), PathStyle::Unix, "/d/");
    match &settings.destination {
        Some(Destination::Local { path }) => {
            assert_eq!(path, &format!("/d/{}", blake3::hash(b"q").to_hex()))
        }
        _ => panic!("a local destination moves along"),
    }
    assert!(settings.adopting);
    settings.apply(
        SettingsEdit::Destination(Some(Destination::Remote {
            source_id: "dav".to_string(),
            path: "x".to_string(),
        })),
        PathStyle::Unix,
        "/d",
    );
    settings.apply(SettingsEdit::RemoteForgotten("q".to_string()), PathStyle::Unix, "/d");
    assert!(!settings.destination.as_ref().unwrap().is_remote());
    settings.apply(SettingsEdit::Left, PathStyle::Unix, "/d");
    assert!(settings.profile.is_none() && settings.destination.is_none() && !settings.enabled);
    assert!(settings.has_file_profile("p"));
}

#[test]
fn a_continued_queue_keeps_its_identity() {
    let mut settings = ConnectSettings::default();
    assert_eq!(settings.queue_content_id("local".to_string()), "local");
    let record = continued_queue(Some("there".to_string()), "local".to_string());
    settings.apply(SettingsEdit::ContinuedQueue(record), PathStyle::Unix, "/d");
    assert_eq!(settings.queue_content_id("local".to_string()), "there");
    assert_eq!(settings.queue_content_id("other".to_string()), "other");
    assert!(continued_queue(Some("same".to_string()), "same".to_string()).is_none());
    assert!(continued_queue(None, "same".to_string()).is_none());
}

#[test]
fn storage_is_shown_for_a_source_or_here() {
    let mut owner = owner();
    assert_eq!(owner.status.storage_path(None), "");
    assert_eq!(owner.status.storage_path(Some("dav")), "Rufin Connect");
    owner.status.saved(SettingsEdit::Profile("p".to_string()), PathStyle::Unix, "/d");
    assert_eq!(owner.status.storage_path(None), local_profile_folder(PathStyle::Unix, "/d", "p"));
    let remote = Destination::Remote { source_id: "dav".to_string(), path: "shared".to_string() };
    assert_eq!(remote.source_id(), Some("dav"));
    owner.status.saved(SettingsEdit::Destination(Some(remote)), PathStyle::Unix, "/d");
    assert_eq!(owner.status.storage_path(Some("dav")), "shared");
    assert_eq!(owner.status.storage_path(Some("smb")), "Rufin Connect");
}

#[test]
fn a_second_join_is_refused_at_once() {
    let mut owner = owner();
    owner.session = Some(session("p"));
    let join = Action::Join { invitation: "i".to_string(), replace: true };
    let opening = owner.begin(&join);
    assert!(opening.stop_session && opening.cancel_download);
    assert_eq!(opening.outcome, OpeningOutcome::Run { waits: true });
    assert!(owner.joining && owner.status.connecting);
    assert_eq!(owner.status.profile_status, Notice::ConnectingDevices);
    assert_eq!(owner.begin(&join).outcome, OpeningOutcome::Refused(Refusal::PairingInProgress));
    assert_eq!(owner.begin(&Action::CancelDownload).outcome, OpeningOutcome::Done);
    let control = Action::Control { peer: "x".to_string(), command: Control::Pause };
    assert_eq!(owner.begin(&control).outcome, OpeningOutcome::Run { waits: false });
}

#[test]
fn refused_actions_say_why() {
    let mut owner = owner();
    let refused = |owner: &Owner, action: Action| owner.execute(&action).err().unwrap();
    assert_eq!(
        refused(&owner, Action::Join { invitation: "i".to_string(), replace: false }),
        "Connecting an existing profile will remove all data in this device, do you really want to continue?"
    );
    assert_eq!(refused(&owner, Action::CancelPairing), "Rufin Connect is disabled");
    assert_eq!(
        refused(&owner, Action::Remove { peer: "x".to_string() }),
        "Create or join a Connect profile first"
    );
    assert_eq!(
        refused(
            &owner,
            Action::Network { nearby: true, relay: Some("nothing".to_string()), public_relay: false }
        ),
        "relative URL without a base"
    );
    owner.status.settings.profile = Some("p".to_string());
    assert_eq!(refused(&owner, Action::Create), "This device already has a Connect profile");
    owner.status.settings.established = true;
    assert_eq!(
        refused(&owner, Action::Encoding { encoding: Encoding::Mp3, confirm: false }),
        "Changing this will redownload all local files."
    );
}

#[test]
fn enabling_opens_the_remembered_profile() {
    let mut owner = owner();
    owner.status.settings.profile = Some("p".to_string());
    let steps = owner.execute(&Action::Enable { enabled: true }).ok().unwrap();
    assert_eq!(steps.len(), 6);
    assert!(matches!(&steps[0], Step::Save(SettingsEdit::Enabled(true))));
    assert!(matches!(&steps[1], Step::LockSync));
    assert!(matches!(&steps[2], Step::OpenProfile { profile, create: false } if profile == "p"));
    assert!(matches!(&steps[3], Step::UnlockSync));
    assert!(matches!(&steps[4], Step::Synchronize));
    assert!(matches!(&steps[5], Step::Show(Shown::ErrorCleared)));
}

#[test]
fn removing_a_device_changes_the_key() {
    let mut owner = owner();
    owner.session = Some(session("p"));
    owner.network_open = true;
    let steps = owner.execute(&Action::Remove { peer: "x".to_string() }).ok().unwrap();
    assert!(matches!(&steps[0], Step::RemoveMember { peer } if peer == "x"));
    assert!(matches!(&steps[1], Step::MakeKey));
    assert!(matches!(&steps[3], Step::InstallKey { profile } if profile == "p"));
    assert!(matches!(&steps[5], Step::WriteKeyAndForget { peer } if peer == "x"));
}

#[test]
fn an_approved_pairing_needs_nothing_more() {
    let mut owner = owner();
    owner.network_open = true;
    owner.status.pairing = Some(pairing("s"));
    let approve = Action::Pair { session: "s".to_string(), approve: true };
    assert_eq!(owner.execute(&approve).ok().unwrap().len(), 3);
    owner.show(Shown::PairingAnswered { session: "s".to_string(), approve: true });
    assert!(owner.execute(&approve).ok().unwrap().is_empty());
    owner.show(Shown::EndPairing);
    assert!(owner.status.pairing.is_none());
}

#[test]
fn a_blank_destination_is_the_own_folder() {
    let mut owner = owner();
    owner.status.settings.profile = Some("p".to_string());
    owner.session = Some(session("p"));
    let blank = Action::Destination { destination: Some(Destination::Local { path: String::new() }) };
    let steps = owner.execute(&blank).ok().unwrap();
    assert!(matches!(&steps[0], Step::Save(SettingsEdit::OwnFolder(profile)) if profile == "p"));
    let remote = Action::Destination {
        destination: Some(Destination::Remote { source_id: "d".to_string(), path: "x".to_string() }),
    };
    let steps = owner.execute(&remote).ok().unwrap();
    assert!(matches!(&steps[0], Step::WriteDestination(Some(_))));
    assert!(matches!(&steps[2], Step::Synchronize));
}

#[test]
fn switching_off_keeps_only_enrolled_devices() {
    let mut owner = owner();
    owner.status.devices.push(device("a", true));
    owner.status.devices.push(device("b", false));
    owner.status.devices.push(device("c", true));
    owner.show(Shown::Disabled);
    let ids: Vec<&str> = owner.status.devices.iter().map(|device| device.id.as_str()).collect();
    assert_eq!(ids, ["a", "c"]);
    assert!(owner.status.devices.iter().all(|device| !device.reachable));
    assert_eq!(owner.status.profile_status.text(), "Connect is not enabled");
}

#[test]
fn failed_joins_are_undone() {
    let join = Action::Join { invitation: "i".to_string(), replace: true };
    assert!(matches!(Owner::recovery(&join)[..], [Step::RestoreAfterPairing]));
    assert!(Owner::recovery(&Action::Leave).is_empty());
}

#[test]
fn networks_are_opened_again_for_new_settings() {
    let mut owner = owner();
    assert!(owner.configure_network(false).is_empty());
    owner.network_open = true;
    owner.session = Some(session("p"));
    assert!(owner.configure_network(true).is_empty());
    let steps = owner.configure_network(false);
    assert!(matches!(&steps[0], Step::RestartNetwork));
    assert!(matches!(&steps[1], Step::ReenterProfile { profile } if profile == "p"));
    assert!(matches!(&steps[2], Step::AttachDocuments));
    owner.status.settings.setup_pending = true;
    assert_eq!(owner.configure_network(false).len(), 2);
}

#[test]
fn only_keys_are_installed() {
    let mut owner = owner();
    let profile = "p".to_string();
    let key = new_key();
    assert!(matches!(
        owner.install_file_key(&profile, &key),
        Ok(Some(SettingsEdit::FileProfile(name))) if name == "p"
    ));
    owner.status.settings.file_profiles.push(profile.clone());
    assert!(matches!(owner.install_file_key(&profile, &key), Ok(None)));
    assert_eq!(owner.install_file_key(&profile, "x").err().as_deref(), Some("invalid Bech32 encoding"));
    assert_eq!(owner.adopt_paired(&key).err().as_deref(), Some("This device is not joining a profile"));
    owner.joining = true;
    assert_eq!(owner.adopt_paired(&key), Ok(()));
    assert!(owner.adopt_paired("x").is_err());
    assert!(owner.adopts_paired(true) && !owner.adopts_paired(false));
    let steps = paired_steps(&profile, &key, &"x".to_string(), &"X".to_string());
    assert!(matches!(&steps[0], PairedStep::Save(SettingsEdit::SetupPending(true))));
    assert!(matches!(&steps[1], PairedStep::ReadProfileFile { profile, .. } if profile == "p"));
    assert!(matches!(&steps[5], PairedStep::Joining(false)));
    let sources = vec![SourceKind { id: "l".to_string(), kind: "local".to_string() }];
    assert!(has_roots(&sources, "l") && !has_roots(&sources, "m"));
}

#[test]
fn opening_without_a_key_is_refused() {
    let mut owner = owner();
    owner.status.settings.enabled = true;
    let profile = "p".to_string();
    assert_eq!(owner.open(&profile, false, false).err(), Some(Refusal::PairAgain));
    let steps = owner.open(&profile, true, false).ok().unwrap();
    assert!(matches!(&steps[0], Step::MakeKey));
    assert!(steps.iter().any(|step| matches!(step, Step::WriteProfile { .. })));
    assert!(steps.iter().any(|step| matches!(step, Step::EstablishIfShared)));
    let steps = owner.open(&profile, false, true).ok().unwrap();
    assert!(matches!(&steps[0], Step::Save(SettingsEdit::FileProfile(_))));
    assert!(matches!(steps.last(), Some(Step::Save(SettingsEdit::OwnFolder(_)))));
}

#[test]
fn leaving_and_restoring_follow_their_steps() {
    assert_eq!(Owner::leave_profile().len(), 6);
    assert!(matches!(Owner::restore_after_pairing()[1], Step::ReopenProfile));
    let mut owner = owner();
    owner.status.settings.profile = Some("p".to_string());
    assert_eq!(owner.reopen_profile().len(), 5);
    owner.network_open = true;
    assert!(matches!(owner.reopen_profile()[1], Step::CloseProfile));
    owner.show(Shown::Left);
    assert!(owner.status.devices.is_empty() && owner.status.identity.is_none());
}

#[test]
fn events_change_the_shown_state() {
    let mut owner = owner();
    assert!(matches!(owner.event(NetworkEvent::Invitation("i".to_string())), Follow::Notify));
    assert!(matches!(owner.event(NetworkEvent::Invitation("i".to_string())), Follow::Nothing));
    let seen = || NetworkEvent::Discovered { peer: "x".to_string(), name: "X".to_string() };
    owner.event(seen());
    owner.event(seen());
    assert_eq!(owner.status.devices.len(), 1);
    assert!(!owner.status.devices[0].enrolled);
    match owner.event(NetworkEvent::MemberAdded { peer: "x".to_string(), name: "Y".to_string() }) {
        Follow::Enroll { peer, name } => owner.member_added(peer, name),
        _ => panic!("a member is enrolled"),
    }
    assert_eq!(owner.status.devices.len(), 1);
    assert!(owner.status.devices[0].enrolled);
    assert_eq!(owner.status.completed_pairings, 1);
    owner.status.settings.profile = Some("p".to_string());
    let gone = |profile: &str| NetworkEvent::Unavailable {
        profile: profile.to_string(),
        peer: "x".to_string(),
    };
    assert!(matches!(owner.event(gone("q")), Follow::Nothing));
    assert!(matches!(owner.event(gone("p")), Follow::Notify));
    assert!(matches!(owner.event(gone("p")), Follow::Nothing));
    assert_eq!(owner.status.devices[0].connection.text(), "Waiting for device");
}

#[test]
fn failed_pairings_of_others_are_silent() {
    let mut owner = owner();
    owner.status.pairing = Some(pairing("s"));
    let failed = |session: Option<&str>| NetworkEvent::PairingFailed {
        session: session.map(str::to_owned),
        error: "no".to_string(),
    };
    assert!(matches!(owner.event(failed(Some("t"))), Follow::Nothing));
    assert!(owner.status.pairing.is_some());
    owner.joining = true;
    assert!(matches!(owner.event(failed(Some("s"))), Follow::Restore { .. }));
    assert!(owner.still_restores(&Some("s".to_string())));
    assert!(!owner.still_restores(&Some("t".to_string())));
    assert_eq!(owner.adoption_failed(true), Some(true));
    assert_eq!(owner.adoption_failed(false), None);
    owner.joining = false;
    assert!(matches!(owner.event(failed(None)), Follow::Fail(message) if message == "no"));
    assert!(owner.status.pairing.is_none());
}

#[test]
fn pairing_and_receiving_are_shown() {
    let mut owner = owner();
    let paired = || NetworkEvent::Paired {
        profile_id: "p".to_string(),
        peer: "x".to_string(),
        name: "X".to_string(),
    };
    assert!(matches!(owner.event(paired()), Follow::Fail(message) if message == "Rufin Connect is disabled"));
    owner.network_open = true;
    assert!(matches!(owner.event(paired()), Follow::Adopt { .. }));
    assert_eq!(owner.status.profile_status, Notice::ReceivingProfile);
    owner.session = Some(session("p"));
    let syncing = |profile: &str, active: bool| NetworkEvent::Syncing {
        profile: profile.to_string(),
        peer: "x".to_string(),
        active,
    };
    assert!(matches!(owner.event(syncing("q", true)), Follow::Nothing));
    assert!(matches!(owner.event(syncing("p", true)), Follow::Notify));
    assert!(owner.session.as_ref().unwrap().receiving.contains("x"));
    assert!(!owner.settle(false));
    assert!(matches!(owner.event(syncing("p", false)), Follow::Nothing));
    owner.status.connecting = false;
    assert!(owner.settle(false));
    assert!(!owner.status.receiving_collection);
    owner.status.pairing = Some(pairing("s"));
    owner.event(NetworkEvent::PairingVerified { session: "s".to_string() });
    assert!(owner.status.pairing.as_ref().unwrap().verified);
    owner.joining = true;
    assert!(matches!(owner.event(NetworkEvent::MembershipChanged), Follow::Nothing));
    assert!(matches!(owner.event(NetworkEvent::Error("e".to_string())), Follow::Fail(_)));
}

#[test]
fn the_owner_decides_what_runs() {
    let mut owner = owner();
    assert!(matches!(owner.start(), Startup::Nothing));
    owner.status.settings.enabled = true;
    assert!(matches!(owner.start(), Startup::OpenNetwork));
    owner.status.settings.profile = Some("p".to_string());
    assert!(matches!(owner.start(), Startup::OpenProfile { .. }));
    assert!(!owner.works() && owner.seeds());
    assert_eq!(owner.exchanges(), Err(Refusal::NoProfile));
    assert_eq!(owner.refreshes_devices(), Err(Refusal::NoProfile));
    owner.session = Some(session("p"));
    assert!(owner.works() && owner.synchronizes() && owner.announces_sources(false));
    assert_eq!(owner.exchanges(), Ok(true));
    assert_eq!(owner.refreshes_devices(), Ok(false));
    assert!(owner.enabled());
    assert_eq!(owner.extension(), None);
    owner.status.settings.adopting = true;
    assert!(owner.resumes_adoption() && !owner.synchronizes());
    assert_eq!(owner.exchanges(), Ok(false));
    assert!(owner.projected(true, false, true) == false);
    assert!(owner.projected(false, false, false));
    owner.announced();
    assert!(!owner.projected(false, false, false));
    owner.transferring(3, 10);
    assert_eq!(owner.status.media_status.as_deref(), Some("Media transferring: 3 / 10 bytes"));
}

#[test]
fn only_members_are_answered() {
    let mut owner = owner();
    let members = vec!["x".to_string()];
    assert_eq!(owner.admits("p", "x", &members), Err(Refusal::NoProfile));
    owner.session = Some(session("p"));
    assert_eq!(owner.admits("p", "x", &members), Err(Refusal::Disabled));
    owner.network_open = true;
    assert_eq!(owner.admits("p", "x", &members), Ok(()));
    assert_eq!(owner.admits("q", "x", &members), Err(Refusal::NotAMember));
    assert_eq!(owner.admits("p", "y", &members), Err(Refusal::NotAMember));
}

#[test]
fn exchanges_come_every_minute_or_with_a_new_place() {
    let mut timer = ExchangeTimer { last: 1000, destination: None };
    assert!(!timer.due(PathStyle::Unix, 60_999, &None));
    assert!(timer.due(PathStyle::Unix, 61_000, &None));
    let place = Some(Destination::Local { path: "/x".to_string() });
    assert!(timer.due(PathStyle::Unix, 61_001, &place));
    assert!(!timer.due(PathStyle::Unix, 61_002, &place));
}

#[test]
fn members_are_refreshed_from_their_answers() {
    let fresh = refreshed_device(None, "x".to_string(), None, None);
    assert_eq!(fresh.name, "Rufin");
    assert!(fresh.enrolled && !fresh.reachable);
    let answer = Presence {
        name: Some("Desk".to_string()),
        playback: Some(true),
        queue_content_id: Some("q".to_string()),
        route: "Via relay".to_string(),
    };
    let known = refreshed_device(Some(fresh), "x".to_string(), Some("Old".to_string()), Some(answer));
    assert_eq!(known.name, "Desk");
    assert!(known.reachable && known.has_playback);
    assert!(matches!(known.connection, Connection::ViaRelay));
    assert_eq!(connection_label("Odd".to_string()).text(), "Odd");
    let mut owner = owner();
    owner.status.devices.push(known);
    assert!(owner.status.continuation_offer("q").is_none());
    assert_eq!(owner.status.continuation_offer("other").unwrap().id, "x");
    owner.status.connection_tested("x", None);
    assert!(!owner.status.devices[0].reachable);
    owner.status.connection_tested("x", Some("Direct".to_string()));
    assert!(matches!(owner.status.devices[0].connection, Connection::Direct));
    assert!(owner.status.device_renamed("x", "New".to_string()));
    assert!(!owner.status.device_renamed("x", "New".to_string()));
}

#[test]
fn networks_and_adoptions_are_shown() {
    let mut owner = owner();
    owner.status.network_opened("me".to_string(), "i".to_string());
    assert_eq!(owner.status.identity.as_deref(), Some("me"));
    assert_eq!(owner.status.invitation.as_deref(), Some("i"));
    assert_eq!(owner.status.profile_status, Notice::WaitingForPeer);
    owner.status.devices_refreshed(vec![device("a", true)]);
    assert!(owner.status.devices.is_empty());
    owner.status.settings.enabled = true;
    owner.status.devices_refreshed(vec![device("a", true)]);
    owner.status.connecting = true;
    owner.status.adopted("a".to_string(), "A".to_string());
    assert_eq!(owner.status.devices.len(), 1);
    assert_eq!(owner.status.devices[0].name, "A");
    assert!(!owner.status.connecting);
    assert_eq!(owner.status.profile_status, Notice::SetUpThisDevice);
}

#[test]
fn relay_changes_preserve_the_open_profile_and_device_identity() {
    let mut owner = owner();
    owner.status.settings.profile = Some("p".to_string());
    owner.status.settings.identity_ref = Some("me".to_string());
    owner.session = Some(session("p"));
    owner.network_open = true;
    let relay = Some("http://127.0.0.1:9/".to_string());
    let change = Action::Network { nearby: false, relay: relay.clone(), public_relay: false };
    let steps = owner.execute(&change).ok().unwrap();
    assert!(matches!(&steps[0], Step::WriteNetwork { relay: Some(url), .. } if url == "http://127.0.0.1:9/"));
    for step in steps {
        if let Step::Save(edit) = step {
            owner.status.saved(edit, PathStyle::Unix, "/d");
        }
    }
    assert_eq!(owner.status.settings.relay, relay);
    assert_eq!(owner.status.settings.profile.as_deref(), Some("p"));
    assert_eq!(owner.status.settings.identity_ref.as_deref(), Some("me"));
    let steps = owner.configure_network(false);
    assert!(matches!(&steps[1], Step::ReenterProfile { profile } if profile == "p"));
}

#[test]
fn projected_records_are_followed() {
    assert_eq!(record_kind("device", "x"), RecordKind::Device);
    assert_eq!(record_kind("connect_network", "relay"), RecordKind::Relay);
    assert_eq!(record_kind("connect_network", "else"), RecordKind::Other);
    assert_eq!(record_kind("connect_key", "file"), RecordKind::FileKey);
    let profile = "p".to_string();
    assert!(matches!(
        project_record(ProfileRecord::PublicRelay(None), &profile, true),
        RecordStep::Save(SettingsEdit::PublicRelay(false))
    ));
    assert!(matches!(
        project_record(ProfileRecord::Destination(None), &profile, true),
        RecordStep::Save(SettingsEdit::RemoteForgotten(_))
    ));
    assert!(matches!(
        project_record(ProfileRecord::FileKey(Some("k".to_string())), &profile, false),
        RecordStep::InstallKey { share: false, .. }
    ));
    let mut projection = Projection::new();
    assert!(projection.apply_projection(2, true, false, true));
    assert!(!projection.apply_projection(0, true, true, true));
    assert!(projection.changed && projection.projected && !projection.sources_changed);
}

#[test]
fn offers_expire_after_five_minutes() {
    let mut transfers: Transfers<u32> = Transfers::new();
    assert_eq!(transfers.offered("x"), Err(Refusal::ContinuationExpired));
    transfers.offer("x".to_string(), 0, 1);
    transfers.offer("y".to_string(), 299_999, 2);
    assert_eq!(transfers.offered("x"), Ok(&1));
    transfers.offer("z".to_string(), 300_000, 3);
    assert!(transfers.offered("x").is_err());
    assert_eq!(transfers.take("y"), Ok(2));
    assert_eq!(transfers.take("y"), Err(Refusal::ContinuationExpired));
}

#[test]
fn queues_are_taken_over_page_by_page() {
    let mut transfer = QueueTransfer::new(3);
    assert_eq!(transfer.next(), Ok(Some(0)));
    assert_eq!(transfer.page(2, false), Ok(()));
    assert_eq!(transfer.page(0, false), Err(Refusal::QueueChanged));
    assert_eq!(transfer.next(), Ok(Some(2)));
    assert_eq!(transfer.page(1, false), Ok(()));
    assert_eq!(transfer.next(), Err(Refusal::NoCurrentTrack));
    assert_eq!(current_track(false, true, true), CurrentTrack::StoreReference);
    assert_eq!(current_track(false, false, true), CurrentTrack::FetchDirectly);
    assert_eq!(current_track(false, false, false), CurrentTrack::Playable);
}

#[test]
fn replaced_keys_are_kept() {
    let old = Some("old".to_string());
    assert!(matches!(change_key(&old, "old", Vec::new()), KeyChange::Unchanged));
    match change_key(&old, "new", vec!["older".to_string()]) {
        KeyChange::Store { retained: Some(list) } => assert_eq!(list, ["older", "old"]),
        _ => panic!("the old key is kept"),
    }
    assert!(matches!(
        change_key(&old, "new", vec!["old".to_string()]),
        KeyChange::Store { retained: None }
    ));
}

#[test]
fn encrypted_file_authenticates_before_exposing_a_snapshot() {
    let contents = b"shared state including credentials\n".repeat(10_000);
    let key = new_key();
    let ciphertext = encrypt(&contents, "profile", &key).ok().unwrap();
    assert!(ciphertext.len() < contents.len() / 10);
    assert!(!ciphertext.windows(11).any(|bytes| bytes == b"credentials"));
    let (profile, snapshot) = decrypt(&ciphertext, std::slice::from_ref(&key)).ok().unwrap();
    assert_eq!(profile, "profile");
    assert_eq!(snapshot, contents);
    assert!(matches!(decrypt(&ciphertext, &[new_key()]), Err(FileError::Sealed(_))));
    let cut = &ciphertext[..ciphertext.len() - 1];
    assert!(matches!(decrypt(cut, std::slice::from_ref(&key)), Err(FileError::Sealed(_))));
}

#[test]
fn reads_uncompressed_profile_files() {
    let key = new_key();
    let identity: age::x25519::Identity = key.parse().unwrap();
    let mut plain = b"RUFINCX1".to_vec();
    plain.extend_from_slice(&7u16.to_le_bytes());
    plain.extend_from_slice(b"profile1\nEND\n");
    let encrypted = age::encrypt(&identity.to_public(), &plain).unwrap();
    let (profile, snapshot) = decrypt(&encrypted, &[key]).ok().unwrap();
    assert_eq!(profile, "profile");
    assert_eq!(snapshot, b"1\nEND\n");
}

#[test]
fn rotated_keys_read_existing_exports_and_rewrite_for_current_members() {
    let old = new_key();
    let intermediate = new_key();
    let current = new_key();
    let exported = encrypt(b"1\nEND\n", "profile", &old).ok().unwrap();
    let keys = vec![current.clone(), old.clone(), intermediate];
    let (profile, snapshot) = decrypt(&exported, &keys).ok().unwrap();
    let rewritten = encrypt(&snapshot, &profile, &current).ok().unwrap();
    assert!(decrypt(&rewritten, &[old]).is_err());
    assert!(decrypt(&rewritten, &[current]).is_ok());
}

#[test]
fn files_are_opened_by_the_first_key_that_fits() {
    let keys: Vec<String> = (0..3).map(|_| new_key()).collect();
    for at in 0..3 {
        let file = encrypt(b"state", "profile", &keys[at]).ok().unwrap();
        assert_eq!(fitting_key(&file, &keys), Some(at));
        let (profile, snapshot) = decrypt(&file, &keys).ok().unwrap();
        assert_eq!((profile.as_str(), snapshot.as_slice()), ("profile", b"state".as_slice()));
        assert_eq!(fitting_key(&file, &[new_key()]), None);
        assert_eq!(fitting_key(&file, &["no key".to_string()]), None);
    }
    assert_eq!(fitting_key(b"no file", &keys), None);
    assert_eq!(exchange_keys("a".to_string(), vec!["b".to_string()]), ["a", "b"]);
}

#[test]
fn the_start_of_a_changed_file_still_counts() {
    let key = new_key();
    let identity: age::x25519::Identity = key.parse().unwrap();
    let opened = |start: &[u8]| {
        let mut plain = start.to_vec();
        plain.resize(200_000, b'x');
        let mut bytes = age::encrypt(&identity.to_public(), &plain).unwrap();
        let last = bytes.len() - 1;
        bytes[last] ^= 1;
        decrypt(&bytes, std::slice::from_ref(&key)).err().unwrap()
    };
    assert!(matches!(opened(b"RUFINCX9"), FileError::Incompatible));
    assert!(matches!(opened(b"RUFINCX1\x01\0\xff"), FileError::NotText(_)));
    assert!(matches!(opened(b"RUFINCX1\x01\0p"), FileError::Sealed(_)));
    assert!(matches!(opened(b"RUFINCX2\x01\0p"), FileError::Damaged(_)));
    let cut = |plain: &[u8]| OpenedFile { plain: plain.to_vec(), fault: Some("cut".to_string()) };
    assert!(matches!(open_content(cut(b"RUFIN")), Err(FileError::Sealed(_))));
    assert!(matches!(open_content(cut(b"RUFINCX1\x01\0pab")), Err(FileError::Sealed(_))));
    assert!(matches!(open_content(cut(b"RUFINCX2\x01\0p\x1f\x8b")), Err(FileError::Sealed(_))));
}

#[test]
fn files_have_uris() {
    assert_eq!(file_uri("/music/a b.mp3"), Ok("file:///music/a%20b.mp3".to_string()));
    assert_eq!(file_uri("a.mp3"), Err(MediaError::NotAbsolute));
    assert_eq!(file_uri_of(None), Err(MediaError::NotAbsolute));
    assert_eq!(MediaError::NotAbsolute.text(), "Media path must be absolute");
}

#[test]
fn damaged_frames_are_refused() {
    let bytes = frame("é", b"body").ok().unwrap();
    assert_eq!(bytes, b"RUFINCX2\x02\x00\xc3\xa9body");
    let content = unframe(&bytes).ok().unwrap();
    assert_eq!(content.profile, "é");
    assert!(content.compressed);
    assert_eq!(content.body, b"body");
    assert!(matches!(unframe(b"RUF"), Err(FileError::Truncated)));
    assert!(matches!(unframe(b"RUFINCX9\0\0"), Err(FileError::Incompatible)));
    assert!(matches!(unframe(b"RUFINCX2\x05\0abc"), Err(FileError::Truncated)));
    assert!(matches!(unframe(b"RUFINCX2\x01\0\xff"), Err(FileError::NotText(_))));
    let whole = |plain: &[u8]| OpenedFile { plain: plain.to_vec(), fault: None };
    assert!(matches!(open_content(whole(b"RUFINCX2\0\0no gzip")), Err(FileError::Damaged(_))));
    assert!(matches!(open_content(whole(b"RUFINCX2\0\0\x1f\x8b")), Err(FileError::Damaged(_))));
    assert!(matches!(open_content(whole(b"RUFIN")), Err(FileError::Truncated)));
    assert!(matches!(frame(&"x".repeat(65_536), b""), Err(FileError::ProfileTooLong)));
    assert!(matches!(encrypt(b"", "p", "no key"), Err(FileError::Key(_))));
    match decrypt(&bytes, &["no key".to_string()]) {
        Err(error) => assert_eq!(error.text(), "invalid Bech32 encoding"),
        Ok(_) => panic!("the key is none"),
    }
}

#[test]
fn keys_of_all_profiles_are_tried() {
    let mut owner = owner();
    owner.status.settings.file_profiles.push("a".to_string());
    owner.session = Some(session("b"));
    assert_eq!(owner.profiles_to_try(), ["a", "b"]);
    let stored = vec![
        ProfileKeys { current: Some("1".to_string()), previous: vec!["2".to_string()] },
        ProfileKeys { current: None, previous: vec!["3".to_string()] },
    ];
    assert_eq!(file_keys(&None, &stored).ok().unwrap(), ["1", "2", "3"]);
    assert_eq!(file_keys(&Some("x".to_string()), &stored).ok().unwrap(), ["x"]);
    assert_eq!(file_keys(&None, &Vec::new()).err(), Some(Refusal::PairForAccess));
}

#[test]
fn another_profile_replaces_only_with_consent() {
    let mut owner = owner();
    owner.session = Some(session("a"));
    let key = Some("k".to_string());
    let other = "b".to_string();
    let own = "a".to_string();
    assert_eq!(owner.read_profile_file(&other, &None, None, true).err(), Some(Refusal::KeyUnavailable));
    assert_eq!(owner.read_profile_file(&other, &key, Some("a"), true).err(), Some(Refusal::WrongProfile));
    assert_eq!(owner.read_profile_file(&other, &key, None, false).err(), Some(Refusal::ReplaceRequired));
    let steps = owner.read_profile_file(&other, &key, None, true).ok().unwrap();
    assert!(matches!(&steps[1], ImportStep::ReplaceSnapshot));
    assert!(matches!(steps.last(), Some(ImportStep::Joining(false))));
    let steps = owner.read_profile_file(&own, &key, None, false).ok().unwrap();
    assert!(matches!(&steps[0], ImportStep::WriteSettings));
    assert_eq!(owner.finish_adoption().ok().unwrap().len(), 4);
    owner.session = None;
    assert_eq!(owner.finish_adoption().err(), Some(Refusal::NoProfile));
}

#[test]
fn unchanged_files_are_not_read_again() {
    let remote = Destination::Remote { source_id: "d".to_string(), path: "/shared/".to_string() };
    let local = Destination::Local { path: "/x".to_string() };
    assert_eq!(own_path("me", &remote), "shared/me.rufin-connect");
    assert_eq!(own_path("me", &local), "me.rufin-connect");
    assert!(is_profile_file("a.rufin-connect"));
    assert!(!is_profile_file("a.txt"));
    let mut exchange = FileExchange::resume(PathStyle::Unix, None, &local);
    let version = Some("1".to_string());
    assert!(exchange.reads("a", &version));
    exchange.read("a".to_string(), version.clone(), None);
    assert!(!exchange.reads("a", &version));
    assert!(exchange.reads("a", &Some("2".to_string())));
    exchange.read("b".to_string(), None, Some(7));
    assert!(exchange.reads("b", &None));
    assert!(!exchange.writes(true, 7));
    assert!(exchange.writes(false, 7));
    assert!(exchange.writes(true, 8));
    exchange.wrote("me".to_string(), None, 8);
    assert!(!exchange.writes(true, 8));
    let entries = || {
        vec![
            FileEntry { path: "a".to_string(), version: Some("1".to_string()) },
            FileEntry { path: "c".to_string(), version: Some("9".to_string()) },
        ]
    };
    assert_eq!(exchange.exchange_session(&entries(), 0), Some(1));
    assert_eq!(exchange.exchange_session(&entries(), 2), None);
    exchange.read("c".to_string(), Some("9".to_string()), None);
    assert_eq!(exchange.exchange_session(&entries(), 0), None);
    assert!(has_entry(&entries(), "c"));
    assert_eq!(entry_version(&entries(), "c").as_deref(), Some("9"));
    let moved = FileExchange::resume(PathStyle::Unix, Some(exchange), &remote);
    assert!(moved.reads("a", &Some("1".to_string())));
    assert_eq!(exchange_import("p", "p"), Ok(()));
    assert_eq!(exchange_import("p", "q"), Err(Refusal::OtherProfile));
}

#[test]
fn corresponding_folder_keeps_source_layout_and_cannot_escape_root() {
    let directory = tempfile::tempdir().unwrap();
    let root = directory.path().to_str().unwrap();
    assert_eq!(
        corresponding_path(PathStyle::Unix, root, "Artist/Album/track.flac").unwrap(),
        directory
            .path()
            .join("Artist")
            .join("Album")
            .join("track.flac")
            .to_str()
            .unwrap()
    );
    assert!(corresponding_path(PathStyle::Unix, root, "../track.flac").is_err());
    assert!(corresponding_path(PathStyle::Unix, root, "Artist/../../track.flac").is_err());
    assert!(corresponding_path(PathStyle::Unix, root, "").is_err());
    assert!(corresponding_path(PathStyle::Unix, root, root).is_err());
    assert!(corresponding_path(PathStyle::Unix, root, "./a..b/..c").is_ok());
    assert_eq!(corresponding_path(PathStyle::Unix, root, "a/..").err(), Some(MediaError::InvalidPath));
}

#[test]
fn extensions_are_those_of_std() {
    for path in ["a.b", "a/b.c.d", "/x/.hidden", "x/.h.e", "a/b/", "a/b.c/.", "..", "a/..", "a", "/", "", "."] {
        let std_path = std::path::Path::new(path);
        assert_eq!(
            path_extension(PathStyle::Unix, path),
            std_path.extension().unwrap_or_default().to_str().unwrap(),
            "{path}"
        );
        assert_eq!(set_extension(PathStyle::Unix, path, "new"), std_path.with_extension("new").to_str().unwrap(), "{path}");
    }
}

#[test]
fn representations_have_their_own_names() {
    let key = blake3::hash("uri\0rev\0mp3".as_bytes()).to_hex().to_string();
    assert_eq!(media_key("uri", "rev", Encoding::Mp3), key);
    assert_eq!(
        versioned_path(PathStyle::Unix, "/m/a.flac", "uri", "rev", Encoding::Mp3),
        format!("/m/a.{}.flac", &key[..12])
    );
    assert_eq!(serving_key("p", "i"), "serve/p/i");
    assert_eq!(download_key("u"), "download/u");
    assert_eq!(published_name("k"), "media/k");
    assert_eq!(prepared_path(PathStyle::Unix, "/d", "uri", "rev"), format!("/d/representations/{key}.mp3"));
    assert!(!is_shared(&vec!["me".to_string()]) && is_shared(&vec!["me".to_string(), "you".to_string()]));
    assert_eq!(
        media_destination(PathStyle::Unix, "/d", "uri", "rev", Encoding::Mp3, Some("flac")),
        format!("/d/media/{key}.mp3")
    );
    let original = blake3::hash("uri\0rev\0original".as_bytes()).to_hex().to_string();
    assert_eq!(
        media_destination(PathStyle::Unix, "/d", "uri", "rev", Encoding::Original, Some("fl/ac")),
        format!("/d/media/{original}")
    );
    assert_eq!(Encoding::named("mp3"), Encoding::Mp3);
    assert_eq!(Encoding::named("flac"), Encoding::Original);
}

fn reference() -> TrackReference {
    TrackReference {
        source_id: Some("s".to_string()),
        root_id: Some("r".to_string()),
        root_count: Some(2),
        relative_path: Some("a/b.flac".to_string()),
        source_format: Some("flac".to_string()),
        revision: "rev".to_string(),
    }
}

fn file(path: Option<&str>, managed: bool) -> MediaFile {
    MediaFile {
        media_uri: "uri".to_string(),
        encoding: Encoding::Original,
        revision: "rev".to_string(),
        place: path.map_or(String::new(), |path| format!("file://{path}")),
        path: path.map(str::to_owned),
        managed,
        hash: Some("h".to_string()),
    }
}

#[test]
fn folders_are_chosen_by_root_or_source() {
    let mut folders: TextMap<String> = TextMap::new();
    folders.insert("s".to_string(), "/all".to_string());
    assert!(mapped_root(&folders, &reference()).is_none());
    folders.insert("s/r".to_string(), "/one".to_string());
    assert_eq!(mapped_root(&folders, &reference()).map(String::as_str), Some("/one"));
    assert_eq!(
        selected_media_path(PathStyle::Unix, &folders, "uri", Encoding::Original, false, &reference()),
        Ok(Some("/one/a/b.flac".to_string()))
    );
    let key = media_key("uri", "rev", Encoding::Mp3);
    assert_eq!(
        selected_media_path(PathStyle::Unix, &folders, "uri", Encoding::Mp3, false, &reference()),
        Ok(Some(format!("/one/a/b.{}.mp3", &key[..12])))
    );
    let mut single = reference();
    single.root_id = None;
    single.root_count = None;
    assert_eq!(mapped_root(&folders, &single).map(String::as_str), Some("/all"));
    single.relative_path = Some("../x".to_string());
    assert_eq!(
        selected_media_path(PathStyle::Unix, &folders, "uri", Encoding::Original, false, &single),
        Err(MediaError::InvalidPath)
    );
}

#[test]
fn files_of_the_user_are_not_overwritten() {
    let received = file(Some("/tmp/in"), true);
    let chosen = Some("/m/a.flac".to_string());
    let target = store_target(PathStyle::Unix, &received, &chosen, "/d/x", &None);
    assert_eq!(target.path, "/m/a.flac");
    assert!(!target.owned);
    let store = store_media(PathStyle::Unix, &received, true, "/tmp/in", &target, true, true);
    assert!(matches!(store.action, StoreAction::Reuse));
    assert!(!store.managed && store.forget_hash && store.remove_source);
    let store = store_media(PathStyle::Unix, &received, false, "/tmp/in", &target, true, true);
    let beside = versioned_path(PathStyle::Unix, "/m/a.flac", "uri", "rev", Encoding::Original);
    assert!(matches!(&store.action, StoreAction::Copy { to, overwrite: false } if to == &beside));
    let previous = Some(file(Some("/m/a.flac"), true));
    let target = store_target(PathStyle::Unix, &received, &chosen, "/d/x", &previous);
    assert!(target.owned);
    let store = store_media(PathStyle::Unix, &received, true, "/tmp/in", &target, true, true);
    assert!(matches!(&store.action, StoreAction::Copy { overwrite: true, .. }));
    let mut older = file(Some("/m/a.flac"), false);
    older.revision = "old".to_string();
    assert_eq!(store_target(PathStyle::Unix, &received, &chosen, "/d/x", &Some(older)).path, beside);
    let kept = StoreTarget { path: "/tmp/in".to_string(), owned: false };
    assert!(matches!(
        store_media(PathStyle::Unix, &received, false, "/tmp/in", &kept, true, true).action,
        StoreAction::Keep
    ));
}

fn facts() -> ServeFacts {
    ServeFacts {
        uri: "uri".to_string(),
        encoding: Encoding::Original,
        revision: Some("rev".to_string()),
        direct: None,
        saved: None,
        original_receipt: None,
        smaller: None,
        original_file: None,
        local_file: None,
    }
}

#[test]
fn media_is_served_from_what_is_there() {
    assert_eq!(serve_media(PathStyle::Unix, &facts()).err(), Some(MediaError::OriginalUnavailable));
    let mut known = facts();
    known.saved = Some(file(Some("/m/a"), true));
    assert!(matches!(serve_media(PathStyle::Unix, &known), Ok(Serve::Offer { hash, .. }) if hash == "h"));
    let mut local = facts();
    local.local_file = Some("/m/a.mp3".to_string());
    assert!(matches!(serve_media(PathStyle::Unix, &local), Ok(Serve::Produce { original, managed: false }) if original == "/m/a.mp3"));
    local.smaller = Some(file(Some("/m/a.mp3"), true));
    assert_eq!(serve_media(PathStyle::Unix, &local).err(), Some(MediaError::OnlySmaller));
    let mut direct = facts();
    direct.direct = Some(DirectFile { item_uri: Some("else".to_string()), received: false, file: None });
    assert_eq!(serve_media(PathStyle::Unix, &direct).err(), Some(MediaError::NotCaptured));
    direct.direct = Some(DirectFile { item_uri: Some("uri".to_string()), received: false, file: None });
    assert_eq!(serve_media(PathStyle::Unix, &direct).err(), Some(MediaError::NotLocal));
    direct.direct = Some(DirectFile {
        item_uri: Some("uri".to_string()),
        received: false,
        file: Some("/f".to_string()),
    });
    assert!(matches!(serve_media(PathStyle::Unix, &direct), Ok(Serve::Produce { original, .. }) if original == "/f"));
    let played = DirectFile { item_uri: None, received: true, file: Some("/f".to_string()) };
    assert_eq!(direct_source(&played, &Some("/l".to_string())).as_deref(), Some("/l"));
    let mut again = facts();
    again.direct = Some(DirectFile { item_uri: Some("uri".to_string()), received: true, file: None });
    again.revision = None;
    again.saved = Some(file(Some("/m/a"), true));
    assert!(matches!(serve_media(PathStyle::Unix, &again), Ok(Serve::Offer { path, .. }) if path == "/m/a"));
    let mut unknown = facts();
    unknown.revision = None;
    assert_eq!(serve_media(PathStyle::Unix, &unknown).err(), Some(MediaError::NotInProfile));
    assert_eq!(captured_occurrence(None, None).err(), Some(MediaError::NotInProfile));
    assert_eq!(captured_occurrence(None, Some((299_999, "o".to_string()))).ok().as_deref(), Some("o"));
    assert!(captured_occurrence(None, Some((300_000, "o".to_string()))).is_err());
}

#[test]
fn offers_must_fit() {
    assert_eq!(accept_offer(Encoding::Mp3, Encoding::Mp3), Ok(()));
    assert_eq!(
        accept_offer(Encoding::Mp3, Encoding::Original),
        Err(MediaError::OtherRepresentation)
    );
    assert_eq!(transfer_hash(None), Err(MediaError::NoTransfer));
    assert_eq!(transfer_hash(Some("h".to_string())).ok().as_deref(), Some("h"));
    assert!(prepares_locally(false, Encoding::Mp3, true));
    assert!(!prepares_locally(false, Encoding::Original, true));
    let old = file(Some("/m/a"), true);
    assert_eq!(removes_other(&old, Encoding::Mp3, "file:///m/a"), Some(false));
    assert_eq!(removes_other(&old, Encoding::Mp3, "file:///m/b"), Some(true));
    assert_eq!(removes_other(&old, Encoding::Original, "file:///m/b"), None);
    assert!(removes_previous(&old, "file:///m/b"));
    assert!(!removes_previous(&old, "file:///m/a"));
    assert!(!removes_previous(&file(Some("/m/a"), false), "file:///m/b"));
}

#[test]
fn files_are_reused_where_they_fit() {
    let mut folders: TextMap<String> = TextMap::new();
    let facts = |receipt: Option<MediaFile>| ReuseFacts {
        uri: "uri".to_string(),
        encoding: Encoding::Original,
        is_cue: false,
        reference: reference(),
        original_file: None,
        receipt,
    };
    assert!(matches!(reusable_media(PathStyle::Unix, &folders, &facts(None)), Ok(Reuse::TryLocal)));
    assert!(matches!(
        reusable_media(PathStyle::Unix, &folders, &facts(Some(file(Some("/d/x"), true)))),
        Ok(Reuse::Link { path }) if path == "/d/x"
    ));
    folders.insert("s/r".to_string(), "/one".to_string());
    assert!(matches!(
        reusable_media(PathStyle::Unix, &folders, &facts(Some(file(Some("/d/x"), true)))),
        Ok(Reuse::Move)
    ));
    assert!(matches!(
        reusable_media(PathStyle::Unix, &folders, &facts(None)),
        Ok(Reuse::TryExpected { path }) if path == "/one/a/b.flac"
    ));
    let mut old = file(Some("/d/x"), true);
    old.revision = "old".to_string();
    assert!(matches!(reusable_media(PathStyle::Unix, &folders, &facts(Some(old))), Ok(Reuse::Nothing)));
    assert_eq!(local_original(PathStyle::Unix, Some("/a".to_string()), &Some(file(Some("/a"), true))), None);
    assert_eq!(local_original(PathStyle::Unix, Some("/a".to_string()), &None).as_deref(), Some("/a"));
}

#[test]
fn searches_ask_the_other_members() {
    let wanted = Wanted { identity: "me".to_string(), is_file: true, encoding: Encoding::Original };
    let ask = |search: Search| match search {
        Search::Ask { phase, query } => (phase, query),
        _ => panic!("the search goes on"),
    };
    let (phase, _) = ask(resolve_media(&wanted, Phase::Session, Reply::Yes));
    let (phase, query) = ask(resolve_media(&wanted, phase, Reply::Yes));
    assert!(matches!(query, Query::Reusable));
    let (phase, query) = ask(resolve_media(&wanted, phase, Reply::NoPath));
    assert!(matches!(query, Query::Members));
    let members = vec!["me".to_string(), "a".to_string(), "me".to_string(), "b".to_string()];
    let (phase, query) = ask(resolve_media(&wanted, phase, Reply::Members(members)));
    assert!(matches!(query, Query::Fetch { peer } if peer == "a"));
    let (phase, query) = ask(resolve_media(&wanted, phase, Reply::Failed("busy".to_string())));
    assert!(matches!(query, Query::Fetch { peer } if peer == "b"));
    match resolve_media(&wanted, phase, Reply::Failed("gone".to_string())) {
        Search::Unavailable { reason, shown: true } => assert_eq!(unavailable(reason), "gone"),
        _ => panic!("nobody has it"),
    }
    assert_eq!(unavailable(None), "Waiting for a device with this media");
    assert!(matches!(resolve_media(&wanted, Phase::Session, Reply::No), Search::Found(None)));
}

#[test]
fn secrets_and_files_have_their_names() {
    assert_eq!(identity_key("i").name, "i");
    assert_eq!(file_key("i", "p").name, "i:p");
    assert_eq!(file_key("i", "p").namespace, "connect-file");
    assert_eq!(previous_file_keys("i", "p").namespace, "connect-file-previous");
    let a = identity_reference(None).unwrap();
    let b = identity_reference(None).unwrap();
    assert_eq!(a.len(), 32);
    assert_ne!(a, b);
    assert_eq!(identity_reference(Some(a.clone())), Ok(a));
    assert_eq!(request_id().unwrap().len(), 64);
    assert_ne!(request_id(), request_id());
    assert_eq!(request_name(Ok(b"nonce".to_vec())), Ok(blake3::hash(b"nonce").to_hex().to_string()));
    assert_eq!(request_name(Err("no chance".to_string())), Err("no chance".to_string()));
    let digest = blake3::hash(b"me");
    assert_eq!(peer_number("me"), u64::from_le_bytes(digest.as_bytes()[..8].try_into().unwrap()));
    assert_eq!(documents_file("me"), format!("{}.sqlite", digest.to_hex()));
    assert_eq!(transfer_name("me"), format!("connect-{}", digest.to_hex()));
    assert_eq!(error("x".to_string(), "y"), "x");
    assert!(error("y".to_string(), "y").starts_with("Devices using Rufin Connect"));
    assert_eq!(credentials(true, true), CredentialStep::Convert);
    assert_eq!(credentials(false, false), CredentialStep::Generate);
    assert_eq!(credentials(true, false), CredentialStep::Use);
}

#[test]
fn connection_test_requires_the_peer_to_still_share_the_profile() {
    let mut host = owner();
    host.session = Some(session("p"));
    host.network_open = true;
    let mut guest = owner();
    guest.session = Some(session("p"));
    guest.network_open = true;
    let members = vec!["host".to_string(), "guest".to_string()];
    host.status.devices.push(device("guest", true));
    let action = || Action::TestConnection { peer: "guest".to_string() };
    let steps = host.execute(&action()).ok().unwrap();
    assert!(matches!(&steps[0], Step::TestConnection { peer } if peer == "guest"));
    assert_eq!(guest.admits("p", "host", &members), Ok(()));
    host.status.connection_tested("guest", Some("Direct".to_string()));
    assert!(host.status.devices.iter().any(|device| device.id == "guest" && device.reachable));
    // The guest leaves, and is discovered again: it can be reached, but refuses the test.
    guest.session = None;
    assert_eq!(guest.admits("p", "host", &members), Err(Refusal::NoProfile));
    guest.session = Some(session("q"));
    assert_eq!(guest.admits("p", "host", &members), Err(Refusal::NotAMember));
    host.status.connection_tested("guest", None);
    assert!(host.status.devices.iter().any(|device| device.id == "guest" && !device.reachable));
    host.network_open = false;
    assert_eq!(host.execute(&action()).err().as_deref(), Some(Refusal::Disabled.text()));
}

/// The files of a folder, and how often one was written.
struct Folder {
    files: std::collections::BTreeMap<String, Vec<u8>>,
    uploads: usize,
}

impl Folder {
    fn entries(&self) -> Vec<FileEntry> {
        let entry = |path: &String| FileEntry { path: path.clone(), version: None };
        self.files.keys().map(entry).collect()
    }

    /// One exchange of a device whose profile is at the revision; says which states it read.
    fn exchange(&mut self, cached: &mut FileExchange, identity: &str, key: &str, state: &[u8], revision: i64) -> Vec<Vec<u8>> {
        let entries = self.entries();
        let own = own_path(identity, &cached.destination);
        let (mut from, mut seen) = (0, Vec::new());
        while let Some(at) = cached.exchange_session(&entries, from) {
            from = at + 1;
            let path = entries[at].path.clone();
            let (profile, snapshot) = decrypt(&self.files[&path], &[key.to_string()]).ok().unwrap();
            assert_eq!(exchange_import(&profile, "profile"), Ok(()));
            let current = (path == own && snapshot == state).then_some(revision);
            cached.read(path, None, current);
            seen.push(snapshot);
        }
        if cached.writes(has_entry(&entries, &own), revision) {
            self.files.insert(own.clone(), encrypt(state, "profile", key).ok().unwrap());
            self.uploads += 1;
            cached.wrote(own.clone(), entry_version(&self.entries(), &own), revision);
        }
        seen
    }
}

#[test]
fn webdav_exchange_leaves_an_unchanged_profile_file_untouched() {
    let key = new_key();
    let destination = Destination::Remote { source_id: "dav".to_string(), path: "profiles".to_string() };
    let mut folder = Folder { files: Default::default(), uploads: 0 };
    let mut cached = FileExchange::resume(PathStyle::Unix, None, &destination);
    folder.exchange(&mut cached, "me", &key, b"1\nEND\n", 1);
    let uploads = folder.uploads;
    assert!(uploads > 0);
    assert!(folder.files.keys().all(|path| path.starts_with("profiles/")));
    for _ in 0..3 {
        cached = FileExchange::resume(PathStyle::Unix, Some(cached), &destination);
        folder.exchange(&mut cached, "me", &key, b"1\nEND\n", 1);
    }
    assert_eq!(
        folder.uploads, uploads,
        "reading the same profile must not PUT it again, even without an ETag"
    );
    folder.exchange(&mut cached, "me", &key, b"2\nRenamed\nEND\n", 2);
    assert_eq!(folder.uploads, uploads + 1, "local edits must reach the file");
    folder.exchange(&mut cached, "me", &key, b"2\nRenamed\nEND\n", 2);
    assert_eq!(folder.uploads, uploads + 1);
}

#[test]
fn folder_exchange_preserves_disconnected_edits_without_rewriting_peer_files() {
    let key = new_key();
    let identities = ["host", "guest"];
    let states: [&[u8]; 2] = [b"first", b"second"];
    let empty = || Folder { files: Default::default(), uploads: 0 };
    let mut folders = [empty(), empty()];
    let place = |index: usize| Destination::Local { path: format!("/sync-{index}") };
    let open = |index: usize| FileExchange::resume(PathStyle::Unix, None, &place(index));
    let mut caches = [open(0), open(1)];
    for index in 0..2 {
        let seen = folders[index].exchange(&mut caches[index], identities[index], &key, states[index], 1);
        assert!(seen.is_empty());
    }
    let names = [
        format!("{}.rufin-connect", identities[0]),
        format!("{}.rufin-connect", identities[1]),
    ];
    // The two independent writes are delivered as a file-sync tool would.
    let copies = [folders[1].files[&names[1]].clone(), folders[0].files[&names[0]].clone()];
    for index in 0..2 {
        folders[index].files.insert(names[1 - index].clone(), copies[index].clone());
    }
    for index in 0..2 {
        let seen = folders[index].exchange(&mut caches[index], identities[index], &key, states[index], 1);
        assert!(seen.iter().any(|state| state == states[1 - index]));
        let merged = b"first and second";
        folders[index].exchange(&mut caches[index], identities[index], &key, merged, 2);
        let own = folders[index].files[&names[index]].clone();
        folders[index].exchange(&mut caches[index], identities[index], &key, merged, 2);
        caches[index] = open(index);
        folders[index].exchange(&mut caches[index], identities[index], &key, merged, 2);
        assert!(folders[index].files[&names[index]] == own, "no rewrite after a no-op or reopening");
        assert_eq!(folders[index].files[&names[1 - index]], copies[index]);
    }
}

#[test]
fn paths_of_windows_cannot_escape_their_root() {
    let windows = PathStyle::Windows;
    let root = "C:\\music";
    for relative in ["..\\track.flac", "a\\..\\..\\track.flac", "a/..", "D:track.flac", "D:\\track.flac", "\\track.flac", "/track.flac", ""] {
        assert_eq!(corresponding_path(windows, root, relative).err(), Some(MediaError::InvalidPath), "{relative}");
    }
    assert_eq!(
        corresponding_path(windows, root, "Artist/Album\\track.flac").unwrap(),
        "C:\\music\\Artist/Album\\track.flac"
    );
    assert_eq!(path_extension(windows, "C:\\m.x\\track.flac\\"), "flac");
    assert_eq!(path_extension(windows, "C:\\m.x\\track"), "");
    assert_eq!(set_extension(windows, "C:\\m.x\\track", "mp3"), "C:\\m.x\\track.mp3");
    let key = media_key("uri", "rev", Encoding::Mp3);
    assert_eq!(
        media_destination(windows, "C:\\d", "uri", "rev", Encoding::Mp3, None),
        format!("C:\\d\\media\\{key}.mp3")
    );
}

#[test]
fn places_are_told_apart_by_their_parts() {
    let unix = PathStyle::Unix;
    let received = file(Some("/tmp/in"), true);
    let previous = Some(file(Some("/m/a.flac"), true));
    assert!(store_target(unix, &received, &Some("/m//./a.flac".to_string()), "/d/x", &previous).owned);
    let target = StoreTarget { path: "/tmp//in".to_string(), owned: false };
    let store = store_media(unix, &received, true, "/tmp/in", &target, true, true);
    assert!(matches!(store.action, StoreAction::Keep));
    let local = |path: &str| Destination::Local { path: path.to_string() };
    assert!(local("/a/b").matches(unix, &local("/a//b/")));
    assert!(!local("/a/b").matches(unix, &local("/a/c")));
    let mut exchange = FileExchange::resume(unix, None, &local("/a/b"));
    exchange.read("x".to_string(), Some("1".to_string()), None);
    let again = FileExchange::resume(unix, Some(exchange), &local("/a/./b"));
    assert!(!again.reads("x", &Some("1".to_string())));
    assert_eq!(local_original(unix, Some("/m//a".to_string()), &Some(file(Some("/m/a"), true))), None);
}

#[test]
fn kept_files_are_named_by_their_paths() {
    let kept = MediaFile::kept("uri", Encoding::Mp3, "rev", "/m/a b.mp3", true, None).ok().unwrap();
    assert_eq!(kept.place, "file:///m/a%20b.mp3");
    assert_eq!(kept.path.as_deref(), Some("/m/a b.mp3"));
    assert_eq!((kept.media_uri.as_str(), kept.revision.as_str()), ("uri", "rev"));
    for path in ["", "m/a", "./a"] {
        assert_eq!(file_uri(path).err(), Some(MediaError::NotAbsolute));
        assert!(MediaFile::kept("uri", Encoding::Mp3, "rev", path, true, None).is_err());
    }
}

#[test]
fn earlier_keys_are_kept_as_a_list() {
    let keys = vec!["AGE-SECRET-1".to_string(), "q\"\\\u{1f}\u{e9}/\n".to_string()];
    let stored = keys_to_keep(&keys);
    assert_eq!(stored, "[\"AGE-SECRET-1\",\"q\\\"\\\\\\u001f\u{e9}/\\n\"]");
    assert_eq!(stored, serde_json::to_string(&keys).unwrap());
    assert_eq!(kept_keys(&Some(stored)), Ok(keys));
    assert_eq!(keys_to_keep(&Vec::new()), "[]");
    assert_eq!(kept_keys(&None), Ok(Vec::new()));
    assert_eq!(kept_keys(&Some(" [ \"a\" ] ".to_string())), Ok(vec!["a".to_string()]));
    assert!(kept_keys(&Some("{}".to_string())).is_err());
    let key = |name: &str| Some(name.to_string());
    assert!(replaces_key(&key("a"), "b"));
    assert!(!replaces_key(&key("a"), "a"));
    assert!(!replaces_key(&None, "a"));
    assert_eq!(kept_signing_key(&key("{\"signing_key\":\"k\"}")), Ok(key("k")));
    assert_eq!(kept_signing_key(&key("{\"signing_key\":7}")), Ok(None));
    assert_eq!(kept_signing_key(&key("\"k\"")), Ok(None));
    assert_eq!(kept_signing_key(&None), Ok(None));
    assert!(kept_signing_key(&key("{")).is_err());
}

#[test]
fn files_open_with_their_key_in_either_case() {
    let (key, other) = (new_key(), new_key());
    let file = encrypt(b"state", "profile", &key).ok().unwrap();
    let keys = vec![other.clone(), key.to_lowercase(), key.clone()];
    assert_eq!(fitting_key(&file, &keys), Some(1));
    let (profile, snapshot) = decrypt(&file, &keys).ok().unwrap();
    assert_eq!((profile.as_str(), snapshot.as_slice()), ("profile", b"state".as_slice()));
    let lower = encrypt(b"state", "profile", &key.to_lowercase()).ok().unwrap();
    assert!(decrypt(&lower, &[key]).is_ok());
    assert!(matches!(decrypt(&lower, &[other]), Err(FileError::Sealed(_))));
    assert!(matches!(decrypt(&lower, &[]), Err(_)));
}
