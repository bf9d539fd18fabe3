//! What the plans of Connect lead to: the device and what it has told others, before and after the
//! steps of a plan are made.

use vstd::prelude::*;

use crate::connect::actions::{Action, Control, Shown, Step};
use crate::connect::owner::Owner;
use crate::connect::plan_model::{
    answered_back, answered_no, answered_yes, closed, destination_kept, destination_told,
    disable_run, discovered_bare, discovered_known, discovered_open, enabled_anew, enabled_known,
    enabled_open, encoding_run, encoding_run_again, export_run, export_run_source, import_run,
    import_run_source, join_run, kept_after_leaving, key_shared, key_written, leave_run,
    nothing_done, opened, outcome, reach_kept, reach_shared, refresh_run, refresh_run_on,
    rename_run, rename_run_open, reopened, run, run_joined, setup_finished_off, setup_finished_on,
    shows, DeviceModel, Dialog, Display, Files, Followed, Kept, KeyState, Live, OpenState, Place,
    Said, Shared,
};
use crate::connect::settings::{Destination, Encoding, SettingsEdit};
use crate::text::shown;

verus! {

/// A join that is not refused ends with exactly one pairing begun, with the invitation that was
/// given, on a device that is switched on, whose network is open and whose own profile is closed.
pub proof fn joins_begin_pairing(device: DeviceModel, owner: Owner, invitation: String, replace: bool)
    requires
        shows(device, owner),
        owner.refusal((Action::Join { invitation, replace })) is None,
    ensures
        replace,
        outcome(device, owner, (Action::Join { invitation, replace })) == (DeviceModel {
            kept: (Kept { on: true, ..device.kept }),
            live: (Live { network: true, joining: true, ..closed(device.live) }),
            display: (Display { connecting: true, error: false, ..device.display }),
            said: (Said { pairings: device.said.pairings.push(invitation@), ..device.said }),
            ..device
        }),
{
    join_run(device, invitation);
    assert(owner.steps((Action::Join { invitation, replace })) =~= seq![
        Step::Joining(true),
        Step::Show(Shown::BeginJoining),
        Step::Save(SettingsEdit::Enabled(true)),
        Step::OpenNetwork,
        Step::CloseProfile,
        Step::BeginPairing { invitation },
        Step::Show(Shown::ErrorCleared),
    ]);
}

/// A device that is switched on has its profile open and in step, or a new one where it had none.
pub proof fn enabling_opens_the_profile(device: DeviceModel, owner: Owner)
    requires
        shows(device, owner),
        owner.refusal((Action::Enable { enabled: true })) is None,
    ensures
        outcome(device, owner, (Action::Enable { enabled: true })) == (DeviceModel {
            kept: (Kept { on: true, ..device.kept }),
            live: match owner.status.settings.profile {
                None => Live {
                    network: true,
                    profile: OpenState::New,
                    attached: true,
                    capturing: true,
                    ..device.live
                },
                Some(profile) => if owner.network_open {
                    device.live
                } else {
                    opened(device.live, (Kept { on: true, ..device.kept }), profile@)
                },
            },
            display: (Display { error: false, ..device.display }),
            followed: (Followed { synchronized: true, ..device.followed }),
            ..device
        }),
{
    let steps = owner.steps((Action::Enable { enabled: true }));
    let switched = Step::Save(SettingsEdit::Enabled(true));
    let done = Step::Show(Shown::ErrorCleared);
    match owner.status.settings.profile {
        None => {
            enabled_anew(device);
            assert(steps =~= seq![
                switched,
                Step::LockSync,
                Step::CreateProfile,
                Step::UnlockSync,
                Step::Synchronize,
                done,
            ]);
        },
        Some(profile) => if owner.network_open {
            enabled_open(device);
            assert(steps =~= seq![switched, Step::Synchronize, done]);
        } else {
            enabled_known(device, profile);
            assert(steps =~= seq![
                switched,
                Step::LockSync,
                Step::OpenProfile { profile, create: false },
                Step::UnlockSync,
                Step::Synchronize,
                done,
            ]);
        },
    }
}

/// A device that is switched off is off the network, transfers nothing, joins nothing and shows no
/// pairing; its profile stays what it was.
pub proof fn disabling_goes_off_the_network(device: DeviceModel, owner: Owner)
    requires
        shows(device, owner),
        owner.refusal((Action::Enable { enabled: false })) is None,
    ensures
        outcome(device, owner, (Action::Enable { enabled: false })) == (DeviceModel {
            kept: (Kept { on: false, ..device.kept }),
            live: (Live {
                network: false,
                attached: false,
                joining: false,
                transfers: false,
                ..device.live
            }),
            display: (Display {
                error: false,
                connecting: false,
                dialog: Dialog::Ended,
                ..device.display
            }),
            ..device
        }),
{
    disable_run(device);
    assert(owner.steps((Action::Enable { enabled: false })) =~= seq![
        Step::LockSync,
        Step::Save(SettingsEdit::Enabled(false)),
        Step::CancelMediaJobs,
        Step::CloseNetwork,
        Step::Joining(false),
        Step::Show(Shown::Disabled),
        Step::UnlockSync,
        Step::Show(Shown::ErrorCleared),
    ]);
}

/// A created profile is a new one, on a device that is switched on and had none.
pub proof fn creating_makes_a_new_profile(device: DeviceModel, owner: Owner)
    requires
        shows(device, owner),
        owner.refusal(Action::Create) is None,
    ensures
        outcome(device, owner, Action::Create) == (DeviceModel {
            kept: (Kept { on: true, ..device.kept }),
            live: (Live {
                network: true,
                profile: OpenState::New,
                attached: true,
                capturing: true,
                ..device.live
            }),
            display: (Display { error: false, ..device.display }),
            followed: (Followed { synchronized: true, ..device.followed }),
            ..device
        }),
        device.kept.profile is None,
{
    enabled_anew(device);
    assert(owner.steps(Action::Create) =~= seq![
        Step::Save(SettingsEdit::Enabled(true)),
        Step::LockSync,
        Step::CreateProfile,
        Step::UnlockSync,
        Step::Synchronize,
        Step::Show(Shown::ErrorCleared),
    ]);
}

/// The answer to a pairing goes to the other device once, as the user gave it, and is shown. A
/// pairing that is refused is over, and a device that wanted to join goes back to its own profile.
pub proof fn pairings_are_answered_as_the_user_says(device: DeviceModel, owner: Owner, session: String, approve: bool)
    requires
        shows(device, owner),
        owner.refusal((Action::Pair { session, approve })) is None,
        !(approve && (owner.status.pairing matches Some(pairing) && pairing.session@ == session@
            && pairing.approved)),
    ensures
        outcome(device, owner, (Action::Pair { session, approve })) == (DeviceModel {
            kept: if !approve && owner.joining {
                Kept { setup_pending: false, ..device.kept }
            } else {
                device.kept
            },
            live: if !approve && owner.joining {
                reopened(device.live, (Kept { setup_pending: false, ..device.kept }))
            } else {
                device.live
            },
            display: (Display {
                error: false,
                connecting: approve && device.display.connecting,
                dialog: if approve {
                    Dialog::Answered { session: session@, approve: true }
                } else {
                    Dialog::Ended
                },
                ..device.display
            }),
            followed: if !approve && owner.joining {
                Followed { sources_told: false, media_told: false, ..device.followed }
            } else {
                device.followed
            },
            said: (Said { answers: device.said.answers.push((session@, approve)), ..device.said }),
            ..device
        }),
{
    let steps = owner.steps((Action::Pair { session, approve }));
    let answer = Step::ConfirmPairing { session, approve };
    let told = Step::Show(Shown::PairingAnswered { session, approve });
    let done = Step::Show(Shown::ErrorCleared);
    if approve {
        answered_yes(device, session, approve);
        assert(steps =~= seq![answer, told, done]);
    } else if owner.joining {
        answered_back(device, session, approve);
        assert(steps =~= seq![
            answer,
            told,
            Step::Show(Shown::EndPairing),
            Step::RestoreAfterPairing,
            done,
        ]);
    } else {
        answered_no(device, session, approve);
        assert(steps =~= seq![answer, told, Step::Show(Shown::EndPairing), done]);
    }
}

/// A pairing that was approved before is not answered again.
pub proof fn approved_pairings_are_not_answered_again(device: DeviceModel, owner: Owner, session: String)
    requires
        shows(device, owner),
        owner.refusal((Action::Pair { session, approve: true })) is None,
        owner.status.pairing matches Some(pairing) && pairing.session@ == session@
            && pairing.approved,
    ensures
        outcome(device, owner, (Action::Pair { session, approve: true })) == (DeviceModel {
            ..device
        }),
{
    reveal_with_fuel(run, 12);
}

/// A pairing that is cancelled is withdrawn once, and the device has its own profile again.
pub proof fn cancelled_pairings_restore_the_profile(device: DeviceModel, owner: Owner)
    requires
        shows(device, owner),
        owner.refusal(Action::CancelPairing) is None,
    ensures
        outcome(device, owner, Action::CancelPairing) == (DeviceModel {
            kept: (Kept { setup_pending: false, ..device.kept }),
            live: reopened(device.live, (Kept { setup_pending: false, ..device.kept })),
            display: (Display {
                error: false,
                connecting: false,
                dialog: Dialog::Ended,
                ..device.display
            }),
            followed: (Followed { sources_told: false, media_told: false, ..device.followed }),
            said: (Said { withdrawn: device.said.withdrawn + 1, ..device.said }),
            ..device
        }),
{
    reveal_with_fuel(run, 12);
}

/// A setup that was pending is finished once: the profile's documents are attached where the device
/// is switched on, and the library and its media are looked at again.
pub proof fn finished_setups_attach_the_documents(device: DeviceModel, owner: Owner)
    requires
        shows(device, owner),
        owner.refusal(Action::FinishSetup) is None,
    ensures
        outcome(device, owner, Action::FinishSetup) == (DeviceModel {
            kept: (Kept { setup_pending: false, ..device.kept }),
            live: if owner.status.settings.setup_pending && owner.status.settings.enabled {
                Live { attached: true, ..device.live }
            } else {
                device.live
            },
            display: (Display {
                error: false,
                completed_setups: if owner.status.settings.setup_pending {
                    device.display.completed_setups + 1
                } else {
                    device.display.completed_setups
                },
                ..device.display
            }),
            followed: if owner.status.settings.setup_pending {
                Followed { sources_told: true, media_told: true, ..device.followed }
            } else {
                device.followed
            },
            ..device
        }),
{
    let steps = owner.steps(Action::FinishSetup);
    let saved = Step::Save(SettingsEdit::SetupPending(false));
    let finished = Step::Show(Shown::SetupFinished);
    let done = Step::Show(Shown::ErrorCleared);
    if !owner.status.settings.setup_pending {
        nothing_done(device);
        assert(steps =~= seq![done]);
    } else if owner.status.settings.enabled {
        setup_finished_on(device);
        assert(steps =~= seq![
            Step::AttachDocuments,
            saved,
            Step::SourcesChanged,
            Step::MediaChanged,
            finished,
            done,
        ]);
    } else {
        setup_finished_off(device);
        assert(steps =~= seq![saved, Step::SourcesChanged, Step::MediaChanged, finished, done]);
    }
}

/// A new name is remembered, told to the network where that is open, and published in the profile.
pub proof fn renaming_tells_everyone(device: DeviceModel, owner: Owner, name: String)
    requires
        shows(device, owner),
        owner.refusal((Action::Rename { name })) is None,
    ensures
        outcome(device, owner, (Action::Rename { name })) == (DeviceModel {
            kept: (Kept { name: name@, ..device.kept }),
            display: (Display { error: false, ..device.display }),
            followed: (Followed { name_applied: owner.network_open, ..device.followed }),
            shared: (Shared { name: Some(name@), ..device.shared }),
            ..device
        }),
{
    let steps = owner.steps((Action::Rename { name }));
    let save = Step::Save(SettingsEdit::Name(name));
    let done = Step::Show(Shown::ErrorCleared);
    if owner.network_open {
        rename_run_open(device, name);
        assert(steps =~= seq![save, Step::RenameNetwork { name }, Step::PublishDevice, done]);
    } else {
        rename_run(device, name);
        assert(steps =~= seq![save, Step::PublishDevice, done]);
    }
}

/// A removed device is no member any more, and the others have a new key for the files of the open
/// profile that the removed one never gets; its record is taken out of the profile.
pub proof fn removed_devices_get_no_new_key(device: DeviceModel, owner: Owner, peer: String)
    requires
        shows(device, owner),
        owner.refusal((Action::Remove { peer })) is None,
    ensures
        outcome(device, owner, (Action::Remove { peer })) == (DeviceModel {
            display: (Display { error: false, ..device.display }),
            followed: (Followed {
                synchronized: true,
                devices_refreshed: true,
                ..device.followed
            }),
            shared: (Shared {
                removed: device.shared.removed.push(peer@),
                key: KeyState::Written {
                    profile: device.live.profile->Known_0,
                    without: device.shared.removed.push(peer@),
                },
                forgotten: device.shared.forgotten.push(peer@),
                ..device.shared
            }),
            ..device
        }),
{
    let removed = device.shared.removed.push(peer@);
    assert(removed[removed.len() - 1] == peer@);
    assert(removed.contains(peer@));
    let profile = owner.session->0.profile;
    let first = seq![
        Step::RemoveMember { peer },
        Step::MakeKey,
        Step::LockSync,
        Step::InstallKey { profile },
        Step::ShareKey,
    ];
    let rest = seq![
        Step::WriteKeyAndForget { peer },
        Step::UnlockSync,
        Step::Synchronize,
        Step::RefreshDevices,
        Step::Show(Shown::ErrorCleared),
    ];
    key_shared(device, peer, profile);
    key_written(run(device, first, 5), peer, profile@, removed);
    run_joined(device, first, rest, 5);
    assert(owner.steps((Action::Remove { peer })) =~= first + rest);
}

/// A device that leaves has no profile, open or remembered, and is switched off and off the network.
pub proof fn leaving_closes_everything(device: DeviceModel, owner: Owner)
    requires
        shows(device, owner),
        owner.refusal(Action::Leave) is None,
    ensures
        outcome(device, owner, Action::Leave) == (DeviceModel {
            kept: kept_after_leaving(device.kept),
            live: (Live { network: false, joining: false, ..closed(device.live) }),
            display: (Display {
                error: false,
                connecting: false,
                dialog: Dialog::Ended,
                ..device.display
            }),
            ..device
        }),
        outcome(device, owner, Action::Leave).kept.profile is None,
        !outcome(device, owner, Action::Leave).kept.on,
        outcome(device, owner, Action::Leave).live.profile is Closed,
{
    leave_run(device);
    assert(owner.steps(Action::Leave) =~= seq![
        Step::LockSync,
        Step::LeaveProfile,
        Step::UnlockSync,
        Step::Show(Shown::ErrorCleared),
    ]);
}

/// A refresh puts an open profile in step, then its files, and then looks for the other devices
/// where the device is switched on; without a profile there is nothing to do.
pub proof fn refreshing_follows_the_profile(device: DeviceModel, owner: Owner)
    requires
        shows(device, owner),
        owner.refusal(Action::Refresh) is None,
    ensures
        outcome(device, owner, Action::Refresh) == (DeviceModel {
            display: (Display { error: false, ..device.display }),
            followed: if owner.session is Some {
                Followed {
                    synchronized: true,
                    exchanged: true,
                    devices_refreshed: device.followed.devices_refreshed
                        || owner.status.settings.enabled,
                    ..device.followed
                }
            } else {
                device.followed
            },
            ..device
        }),
{
    let steps = owner.steps(Action::Refresh);
    let done = Step::Show(Shown::ErrorCleared);
    if owner.session is None {
        nothing_done(device);
        assert(steps =~= seq![done]);
    } else if owner.status.settings.enabled {
        refresh_run_on(device);
        assert(steps =~= seq![Step::Synchronize, Step::Exchange, Step::RefreshDevices, done]);
    } else {
        refresh_run(device);
        assert(steps =~= seq![Step::Synchronize, Step::Exchange, done]);
    }
}

/// A device that looks for others is switched on and on the network, with its profile where it has
/// one, and without a new one where it has none.
pub proof fn discovering_opens_the_network(device: DeviceModel, owner: Owner)
    requires
        shows(device, owner),
        owner.refusal(Action::Discover) is None,
    ensures
        outcome(device, owner, Action::Discover) == (DeviceModel {
            kept: (Kept { on: true, ..device.kept }),
            live: if owner.network_open {
                device.live
            } else {
                match owner.status.settings.profile {
                    Some(profile) => opened(
                        device.live,
                        (Kept { on: true, ..device.kept }),
                        profile@,
                    ),
                    None => Live { network: true, ..device.live },
                }
            },
            display: (Display { error: false, ..device.display }),
            ..device
        }),
        outcome(device, owner, Action::Discover).live.network,
{
    let steps = owner.steps(Action::Discover);
    let switched = Step::Save(SettingsEdit::Enabled(true));
    let done = Step::Show(Shown::ErrorCleared);
    if owner.network_open {
        discovered_open(device);
        assert(steps =~= seq![switched, done]);
    } else {
        match owner.status.settings.profile {
            Some(profile) => {
                discovered_known(device, profile);
                assert(steps =~= seq![
                    switched,
                    Step::LockSync,
                    Step::OpenProfile { profile, create: false },
                    Step::UnlockSync,
                    done,
                ]);
            },
            None => {
                discovered_bare(device);
                assert(steps =~= seq![switched, Step::OpenNetwork, done]);
            },
        }
    }
}

/// A connection is tested with the device that is named, and with no other.
pub proof fn tests_reach_the_named_device(device: DeviceModel, owner: Owner, peer: String)
    requires
        shows(device, owner),
        owner.refusal((Action::TestConnection { peer })) is None,
    ensures
        outcome(device, owner, (Action::TestConnection { peer })) == (DeviceModel {
            display: (Display { error: false, ..device.display }),
            said: (Said { tested: device.said.tested.push(peer@), ..device.said }),
            ..device
        }),
{
    reveal_with_fuel(run, 12);
}

/// New ways of reaching devices are remembered and applied to the open network; an open profile
/// tells the other devices of the relay.
pub proof fn networks_follow_the_settings(device: DeviceModel, owner: Owner, nearby: bool, relay: Option<String>, public_relay: bool)
    requires
        shows(device, owner),
        owner.refusal((Action::Network { nearby, relay, public_relay })) is None,
    ensures
        outcome(device, owner, (Action::Network { nearby, relay, public_relay })) == (DeviceModel {
            kept: (Kept { reach: (nearby, shown(relay), public_relay), ..device.kept }),
            display: (Display { error: false, ..device.display }),
            followed: (Followed {
                reach_applied: true,
                synchronized: device.followed.synchronized || owner.session is Some,
                ..device.followed
            }),
            shared: (Shared {
                reach: if owner.session is Some {
                    Some((shown(relay), public_relay))
                } else {
                    device.shared.reach
                },
                ..device.shared
            }),
            ..device
        }),
{
    let steps = owner.steps((Action::Network { nearby, relay, public_relay }));
    let save = Step::Save(SettingsEdit::Network { nearby, relay, public_relay });
    let done = Step::Show(Shown::ErrorCleared);
    if owner.session is Some {
        reach_shared(device, nearby, relay, public_relay);
        assert(steps =~= seq![
            Step::WriteNetwork { relay, public_relay },
            Step::Synchronize,
            save,
            Step::ConfigureNetwork,
            done,
        ]);
    } else {
        reach_kept(device, nearby, relay, public_relay);
        assert(steps =~= seq![save, Step::ConfigureNetwork, done]);
    }
}

/// Playback is continued from the device that is named.
pub proof fn playback_continues_from_the_named_device(device: DeviceModel, owner: Owner, peer: String)
    requires
        shows(device, owner),
        owner.refusal((Action::Continue { peer })) is None,
    ensures
        outcome(device, owner, (Action::Continue { peer })) == (DeviceModel {
            display: (Display { error: false, ..device.display }),
            said: (Said { continued: device.said.continued.push(peer@), ..device.said }),
            ..device
        }),
{
    reveal_with_fuel(run, 12);
}

/// A command goes to the player of the device that is named, as it was given.
pub proof fn commands_reach_the_named_device(device: DeviceModel, owner: Owner, peer: String, command: Control)
    requires
        shows(device, owner),
        owner.refusal((Action::Control { peer, command })) is None,
    ensures
        outcome(device, owner, (Action::Control { peer, command })) == (DeviceModel {
            display: (Display { error: false, ..device.display }),
            said: (Said { controls: device.said.controls.push((peer@, command)), ..device.said }),
            ..device
        }),
{
    reveal_with_fuel(run, 12);
}

/// A folder is remembered for the source and root that it was chosen for, and the media is looked
/// at again.
pub proof fn folders_are_kept_for_their_source(device: DeviceModel, owner: Owner, source: String, root_id: Option<String>, path: String)
    requires
        shows(device, owner),
        owner.refusal((Action::Folder { source, root_id, path })) is None,
    ensures
        outcome(device, owner, (Action::Folder { source, root_id, path })) == (DeviceModel {
            kept: (Kept {
                folders: device.kept.folders.insert((source@, shown(root_id)), path@),
                ..device.kept
            }),
            display: (Display { error: false, ..device.display }),
            followed: (Followed { media_told: true, ..device.followed }),
            ..device
        }),
{
    reveal_with_fuel(run, 12);
}

/// Another encoding is remembered, and the media of an established profile is looked at again for
/// it. The same encoding changes nothing.
pub proof fn encodings_are_kept(device: DeviceModel, owner: Owner, encoding: Encoding, confirm: bool)
    requires
        shows(device, owner),
        owner.refusal((Action::Encoding { encoding, confirm })) is None,
    ensures
        outcome(device, owner, (Action::Encoding { encoding, confirm })) == (DeviceModel {
            kept: (Kept { encoding, ..device.kept }),
            display: (Display { error: false, ..device.display }),
            followed: (Followed {
                media_told: if encoding == owner.status.settings.encoding {
                    device.followed.media_told
                } else {
                    owner.status.settings.established && !owner.status.settings.setup_pending
                },
                ..device.followed
            }),
            ..device
        }),
{
    let steps = owner.steps((Action::Encoding { encoding, confirm }));
    let settings = owner.status.settings;
    let save = Step::Save(SettingsEdit::Encoding(encoding));
    let done = Step::Show(Shown::ErrorCleared);
    if settings.encoding == encoding {
        nothing_done(device);
        assert(steps =~= seq![done]);
    } else if settings.established && !settings.setup_pending {
        encoding_run_again(device, encoding);
        assert(steps =~= seq![save, Step::MediaChanged, done]);
    } else {
        encoding_run(device, encoding);
        assert(steps =~= seq![save, done]);
    }
}

/// A track is downloaded from the device that is named.
pub proof fn downloads_come_from_the_named_device(device: DeviceModel, owner: Owner, peer: String, uri: String)
    requires
        shows(device, owner),
        owner.refusal((Action::Download { peer, uri })) is None,
    ensures
        outcome(device, owner, (Action::Download { peer, uri })) == (DeviceModel {
            display: (Display { error: false, ..device.display }),
            said: (Said { downloads: device.said.downloads.push((peer@, uri@)), ..device.said }),
            ..device
        }),
{
    reveal_with_fuel(run, 12);
}

/// The destination is in a source, where other devices reach it.
pub open spec fn elsewhere(destination: Option<Destination>) -> bool {
    destination matches Some(Destination::Remote { .. })
}

/// The place that a choice of a destination stands for: no choice, and a folder without a name, mean
/// the folder of the device's own profile.
pub open spec fn chosen_place(destination: Option<Destination>, profile: Option<Seq<char>>) -> Place {
    match (destination, profile) {
        (Some(Destination::Remote { source_id, path }), _) => Place::Given(
            Destination::Remote { source_id, path },
        ),
        (Some(Destination::Local { path }), _) if path@.len() > 0 => Place::Given(
            Destination::Local { path },
        ),
        (_, Some(profile)) => Place::Own(profile),
        (_, None) => Place::Nowhere,
    }
}

/// A chosen destination is remembered. The other devices are told of it where it is in a source, and
/// told that there is none any more where it was in one; a folder of this device stays untold.
pub proof fn destinations_in_sources_are_shared(device: DeviceModel, owner: Owner, destination: Option<Destination>)
    requires
        shows(device, owner),
        owner.refusal((Action::Destination { destination })) is None,
    ensures
        outcome(device, owner, (Action::Destination { destination })) == (DeviceModel {
            kept: (Kept {
                destination: chosen_place(destination, device.kept.profile),
                ..device.kept
            }),
            display: (Display { error: false, ..device.display }),
            followed: (Followed {
                synchronized: device.followed.synchronized || (owner.session is Some && (elsewhere(
                    destination,
                ) || elsewhere(owner.status.settings.destination))),
                ..device.followed
            }),
            shared: (Shared {
                destination: if owner.session is Some && elsewhere(destination) {
                    Some(destination)
                } else if owner.session is Some && elsewhere(owner.status.settings.destination) {
                    Some(None)
                } else {
                    device.shared.destination
                },
                ..device.shared
            }),
            ..device
        }),
{
    let steps = owner.steps((Action::Destination { destination }));
    let edit = owner.destination_edit(destination);
    let done = Step::Show(Shown::ErrorCleared);
    if owner.session is Some && (elsewhere(destination) || elsewhere(
        owner.status.settings.destination,
    )) {
        let told = if elsewhere(destination) {
            destination
        } else {
            None
        };
        destination_told(device, edit, told);
        assert(steps =~= seq![
            Step::WriteDestination(told),
            Step::Save(edit),
            Step::Synchronize,
            done,
        ]);
    } else {
        destination_kept(device, edit);
        assert(steps =~= seq![Step::Save(edit), done]);
    }
}

/// An export writes the open profile once, to the place that is named.
pub proof fn exports_go_to_the_named_place(device: DeviceModel, owner: Owner, path: String, source_id: Option<String>)
    requires
        shows(device, owner),
        owner.refusal((Action::Export { path, source_id })) is None,
    ensures
        outcome(device, owner, (Action::Export { path, source_id })) == (DeviceModel {
            display: (Display { error: false, ..device.display }),
            files: (Files {
                exported: true,
                stored: device.files.stored.push((shown(source_id), path@)),
                ..device.files
            }),
            ..device
        }),
{
    let steps = owner.steps((Action::Export { path, source_id }));
    let done = Step::Show(Shown::ErrorCleared);
    match source_id {
        Some(source_id) => {
            export_run_source(device, source_id, path);
            assert(steps =~= seq![
                Step::ExportProfile,
                Step::StoreInSource { source_id, path },
                done,
            ]);
        },
        None => {
            export_run(device, path);
            assert(steps =~= seq![Step::ExportProfile, Step::StoreLocally { path }, done]);
        },
    }
}

/// An import reads the file that is named once, with the key that is given, and replaces the profile
/// only where that is asked for.
pub proof fn imports_read_the_named_file(device: DeviceModel, owner: Owner, path: String, source_id: Option<String>, replace: bool, key: Option<String>)
    requires
        shows(device, owner),
        owner.refusal((Action::Import { path, source_id, replace, key })) is None,
    ensures
        outcome(device, owner, (Action::Import { path, source_id, replace, key })) == (DeviceModel {
            display: (Display { error: false, ..device.display }),
            files: (Files {
                fetched: if source_id is Some {
                    None
                } else {
                    device.files.fetched
                },
                imports: device.files.imports.push(
                    (shown(source_id), path@, replace, shown(key)),
                ),
                ..device.files
            }),
            ..device
        }),
{
    let steps = owner.steps((Action::Import { path, source_id, replace, key }));
    let done = Step::Show(Shown::ErrorCleared);
    match source_id {
        Some(source_id) => {
            import_run_source(device, source_id, path, replace, key);
            assert(steps =~= seq![
                Step::FetchFromSource { source_id, path },
                Step::ImportFetched { replace, key },
                done,
            ]);
        },
        None => {
            import_run(device, path, replace, key);
            assert(steps =~= seq![Step::ImportFile { path, replace, key }, done]);
        },
    }
}

} // verus!
