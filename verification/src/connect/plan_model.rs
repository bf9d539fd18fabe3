//! A model of a device and of what it tells others, before and after the steps of a plan are made.

use vstd::prelude::*;
use vstd::string::*;

use crate::connect::actions::{Action, Control, Shown, Step};
use crate::connect::owner::Owner;
use crate::connect::settings::{Destination, Encoding, SettingsEdit};
use crate::text::shown;

verus! {

/// The profile that a device has open.
pub enum OpenState {
    Closed,
    Known(Seq<char>),
    /// One that was just created.
    New,
}

/// Where a device puts its profile files.
pub enum Place {
    Nowhere,
    Given(Destination),
    /// The folder that the device keeps for the profile.
    Own(Seq<char>),
}

/// What is shown of a pairing.
pub enum Dialog {
    AsBefore,
    Answered { session: Seq<char>, approve: bool },
    Ended,
}

/// How far a new file key of the profile has come.
pub enum KeyState {
    Unchanged,
    Made,
    Installed { profile: Seq<char> },
    /// The members have the key, all but those that were removed before.
    Shared { profile: Seq<char>, without: Seq<Seq<char>> },
    /// The key also stands in the profile.
    Written { profile: Seq<char>, without: Seq<Seq<char>> },
}

/// What a device remembers.
pub struct Kept {
    pub on: bool,
    pub name: Seq<char>,
    pub profile: Option<Seq<char>>,
    pub setup_pending: bool,
    pub encoding: Encoding,
    pub destination: Place,
    pub folders: Map<(Seq<char>, Option<Seq<char>>), Seq<char>>,
    /// Whether devices nearby are looked for, the relay, and whether public relays are used.
    pub reach: (bool, Option<Seq<char>>, bool),
}

/// What a device has open.
pub struct Live {
    pub network: bool,
    pub profile: OpenState,
    /// The documents of the profile are exchanged over the network.
    pub attached: bool,
    /// The library is looked through for the profile.
    pub capturing: bool,
    pub joining: bool,
    /// Media is being transferred.
    pub transfers: bool,
}

/// What a device shows.
pub struct Display {
    pub error: bool,
    pub connecting: bool,
    pub dialog: Dialog,
    pub completed_setups: nat,
}

/// What has followed the last change.
pub struct Followed {
    /// The open network has the name of the device, and reaches others as the settings say.
    pub name_applied: bool,
    pub reach_applied: bool,
    /// The profile holds what was written to it, and the files hold the profile.
    pub synchronized: bool,
    pub exchanged: bool,
    pub devices_refreshed: bool,
    /// The library and the media were looked at again.
    pub sources_told: bool,
    pub media_told: bool,
}

/// What the profile says of this device and of all.
pub struct Shared {
    pub name: Option<Seq<char>>,
    pub reach: Option<(Option<Seq<char>>, bool)>,
    pub destination: Option<Option<Destination>>,
    pub key: KeyState,
    pub removed: Seq<Seq<char>>,
    pub forgotten: Seq<Seq<char>>,
}

/// What was said to other devices, each in its order.
pub struct Said {
    pub pairings: Seq<Seq<char>>,
    pub answers: Seq<(Seq<char>, bool)>,
    pub withdrawn: nat,
    pub tested: Seq<Seq<char>>,
    pub continued: Seq<Seq<char>>,
    pub controls: Seq<(Seq<char>, Control)>,
    pub downloads: Seq<(Seq<char>, Seq<char>)>,
}

/// The profile files that were written and read.
pub struct Files {
    /// The profile file at hand, and the source and path that a file was fetched from.
    pub exported: bool,
    pub fetched: Option<(Seq<char>, Seq<char>)>,
    /// The source, the path, and of a file that was read whether it replaces the profile, and its
    /// key.
    pub stored: Seq<(Option<Seq<char>>, Seq<char>)>,
    pub imports: Seq<(Option<Seq<char>>, Seq<char>, bool, Option<Seq<char>>)>,
}

/// A device, and what it has told others.
pub struct DeviceModel {
    /// Every step so far found what it needs.
    pub sound: bool,
    /// The lock on synchronization is held by the plan.
    pub locked: bool,
    pub kept: Kept,
    pub live: Live,
    pub display: Display,
    pub followed: Followed,
    pub shared: Shared,
    pub said: Said,
    pub files: Files,
}

/// What a step needs.
pub open spec fn possible(device: DeviceModel, step: Step) -> bool {
    let on_profile = !(device.live.profile is Closed);
    match step {
        Step::LockSync => !device.locked,
        Step::UnlockSync => device.locked,
        // A new profile is created only where there is none; one that is opened is the remembered.
        Step::CreateProfile => device.locked && device.kept.on && device.kept.profile is None,
        Step::OpenProfile { profile, create } => device.locked && !create && device.kept.profile
            == Some(profile@),
        Step::LeaveProfile | Step::CloseNetwork => device.locked,
        Step::OpenNetwork => device.kept.on,
        Step::CloseProfile | Step::ConfirmPairing { .. } | Step::CancelPairing
        | Step::TestConnection { .. } | Step::RenameNetwork { .. } => device.live.network,
        // A device pairs to join another profile, never with its own one open.
        Step::BeginPairing { .. } => device.kept.on && device.live.network && device.live.joining
            && !on_profile,
        Step::RestoreAfterPairing | Step::ReopenProfile | Step::Synchronize | Step::ImportFile {
            ..
        } => !device.locked,
        Step::Exchange => !device.locked && device.followed.synchronized,
        Step::RefreshDevices => !device.locked && (device.kept.on || device.live.network),
        Step::AttachDocuments | Step::RemoveMember { .. } => device.live.network && on_profile,
        Step::InstallKey { .. } => device.shared.key is Made,
        // Members share the key of the profile that is open.
        Step::ShareKey => device.locked && (device.shared.key matches KeyState::Installed {
            profile,
        } && device.live.profile == OpenState::Known(profile)),
        // The record of a device is taken out only once the others have a key that it lacks.
        Step::WriteKeyAndForget { peer } => device.locked && (
        device.shared.key matches KeyState::Shared { without, .. } && without.contains(peer@)),
        Step::WriteNetwork { .. } | Step::WriteDestination(_) | Step::WriteProfile { .. } =>
            on_profile,
        Step::ExportProfile => !device.locked && on_profile,
        Step::StoreInSource { .. } | Step::StoreLocally { .. } => device.files.exported,
        Step::ImportFetched { .. } => !device.locked && device.files.fetched is Some,
        Step::EnterProfile { profile, .. } | Step::ReenterProfile { profile } =>
            device.live.network && device.live.profile == OpenState::Known(profile@),
        Step::EstablishIfShared | Step::RestartNetwork => device.live.network,
        Step::Show(Shown::Disabled) => !device.kept.on && !device.live.network,
        Step::Show(Shown::Left) => device.kept.profile is None && !on_profile,
        Step::Show(Shown::SetupFinished) => !device.kept.setup_pending && on_profile,
        Step::Show(Shown::AwaitSetup) => device.kept.setup_pending,
        _ => true,
    }
}

/// What the device remembers after a step.
pub open spec fn kept_after(kept: Kept, step: Step) -> Kept {
    match step {
        Step::Save(edit) => match edit {
            SettingsEdit::Enabled(enabled) => Kept { on: enabled, ..kept },
            SettingsEdit::Name(name) => Kept { name: name@, ..kept },
            SettingsEdit::Profile(profile) => Kept { profile: Some(profile@), ..kept },
            SettingsEdit::SetupPending(pending) => Kept { setup_pending: pending, ..kept },
            SettingsEdit::Network { nearby, relay, public_relay } => Kept {
                reach: (nearby, shown(relay), public_relay),
                ..kept
            },
            SettingsEdit::Folder { source, root_id, path } => Kept {
                folders: kept.folders.insert((source@, shown(root_id)), path@),
                ..kept
            },
            SettingsEdit::Encoding(encoding) => Kept { encoding, ..kept },
            SettingsEdit::Destination(Some(destination)) => Kept {
                destination: Place::Given(destination),
                ..kept
            },
            SettingsEdit::Destination(None) => Kept { destination: Place::Nowhere, ..kept },
            SettingsEdit::OwnFolder(profile) => Kept { destination: Place::Own(profile@), ..kept },
            SettingsEdit::Left => kept_after_leaving(kept),
            SettingsEdit::Relay(relay) => {
                let (nearby, _, public_relay) = kept.reach;
                Kept { reach: (nearby, shown(relay), public_relay), ..kept }
            },
            SettingsEdit::PublicRelay(public_relay) => {
                let (nearby, relay, _) = kept.reach;
                Kept { reach: (nearby, relay, public_relay), ..kept }
            },
            _ => kept,
        },
        Step::LeaveProfile => kept_after_leaving(kept),
        Step::RestoreAfterPairing => Kept { setup_pending: false, ..kept },
        _ => kept,
    }
}

pub open spec fn kept_after_leaving(kept: Kept) -> Kept {
    Kept {
        on: false,
        profile: None,
        setup_pending: false,
        destination: Place::Nowhere,
        ..kept
    }
}

/// A profile is open; on a device that is switched on it is also on the network.
pub open spec fn opened(live: Live, kept: Kept, profile: Seq<char>) -> Live {
    Live {
        profile: OpenState::Known(profile),
        network: live.network || kept.on,
        attached: kept.on && !kept.setup_pending,
        capturing: true,
        ..live
    }
}

/// No profile is open.
pub open spec fn closed(live: Live) -> Live {
    Live { profile: OpenState::Closed, attached: false, capturing: false, ..live }
}

/// The remembered profile is open, where there is one, and no other is joined.
pub open spec fn reopened(live: Live, kept: Kept) -> Live {
    let fresh = Live { joining: false, ..closed(live) };
    match kept.profile {
        Some(profile) => opened(fresh, kept, profile),
        None => fresh,
    }
}

/// What the device has open after a step.
pub open spec fn live_after(device: DeviceModel, step: Step) -> Live {
    let live = device.live;
    match step {
        Step::Joining(joining) => Live { joining, ..live },
        Step::StopSession => closed(live),
        Step::CancelMediaJobs => Live { transfers: false, ..live },
        Step::OpenNetwork => Live { network: true, ..live },
        Step::CloseNetwork => Live { network: false, attached: false, ..live },
        Step::OpenProfile { profile, .. } => opened(live, device.kept, profile@),
        Step::CreateProfile => Live {
            profile: OpenState::New,
            network: true,
            attached: true,
            capturing: true,
            ..live
        },
        Step::CloseProfile => closed(live),
        Step::LeaveProfile => Live { network: false, joining: false, ..closed(live) },
        Step::RestoreAfterPairing => reopened(live, Kept { setup_pending: false, ..device.kept }),
        Step::ReopenProfile => reopened(live, device.kept),
        Step::AttachDocuments => Live { attached: true, ..live },
        Step::Capture(capturing) => Live { capturing, ..live },
        Step::OpenDocuments { profile } => Live { profile: OpenState::Known(profile@), ..live },
        Step::RestartNetwork => Live { attached: false, ..live },
        _ => live,
    }
}

/// What the device shows after a step.
pub open spec fn display_after(display: Display, step: Step) -> Display {
    match step {
        Step::Show(change) => match change {
            Shown::BeginJoining => Display { connecting: true, error: false, ..display },
            Shown::Disabled | Shown::Left | Shown::EndPairing => Display {
                connecting: false,
                dialog: Dialog::Ended,
                ..display
            },
            Shown::PairingAnswered { session, approve } => Display {
                dialog: Dialog::Answered { session: session@, approve },
                ..display
            },
            Shown::SetupFinished => Display {
                completed_setups: display.completed_setups + 1,
                ..display
            },
            Shown::AwaitSetup => display,
            Shown::ErrorCleared => Display { error: false, ..display },
        },
        Step::LeaveProfile | Step::RestoreAfterPairing => Display {
            connecting: false,
            dialog: Dialog::Ended,
            ..display
        },
        _ => display,
    }
}

/// What has followed the last change after a step.
pub open spec fn followed_after(followed: Followed, kept: Kept, step: Step) -> Followed {
    match step {
        Step::Save(SettingsEdit::Name(_)) => Followed { name_applied: false, ..followed },
        Step::Save(SettingsEdit::Network { .. }) => Followed { reach_applied: false, ..followed },
        Step::Save(SettingsEdit::SetupPending(_)) | Step::RestoreAfterPairing => Followed {
            sources_told: false,
            media_told: false,
            ..followed
        },
        Step::Save(SettingsEdit::Folder { .. }) | Step::Save(SettingsEdit::Encoding(_)) => Followed {
            media_told: false,
            ..followed
        },
        Step::WriteKeyAndForget { .. } | Step::WriteNetwork { .. } | Step::WriteDestination(
            _,
        ) => Followed { synchronized: false, ..followed },
        Step::RenameNetwork { name } => Followed { name_applied: name@ == kept.name, ..followed },
        Step::ConfigureNetwork | Step::RestartNetwork => Followed { reach_applied: true, ..followed },
        Step::Synchronize => Followed { synchronized: true, ..followed },
        Step::Exchange => Followed { exchanged: true, ..followed },
        Step::RefreshDevices => Followed { devices_refreshed: true, ..followed },
        Step::SourcesChanged => Followed { sources_told: true, ..followed },
        Step::MediaChanged => Followed { media_told: true, ..followed },
        _ => followed,
    }
}

/// What the profile says after a step.
pub open spec fn shared_after(shared: Shared, kept: Kept, step: Step) -> Shared {
    match step {
        Step::PublishDevice => Shared { name: Some(kept.name), ..shared },
        Step::WriteNetwork { relay, public_relay } => Shared {
            reach: Some((shown(relay), public_relay)),
            ..shared
        },
        Step::WriteDestination(destination) => Shared { destination: Some(destination), ..shared },
        Step::WriteProfile { relay, public_relay, destination } => Shared {
            reach: Some((shown(relay), public_relay)),
            destination: Some(destination),
            ..shared
        },
        Step::RemoveMember { peer } => Shared { removed: shared.removed.push(peer@), ..shared },
        Step::MakeKey => Shared { key: KeyState::Made, ..shared },
        Step::InstallKey { profile } => Shared {
            key: KeyState::Installed { profile: profile@ },
            ..shared
        },
        Step::ShareKey => match shared.key {
            KeyState::Installed { profile } => Shared {
                key: KeyState::Shared { profile, without: shared.removed },
                ..shared
            },
            _ => shared,
        },
        Step::WriteKeyAndForget { peer } => match shared.key {
            KeyState::Shared { profile, without } => Shared {
                key: KeyState::Written { profile, without },
                forgotten: shared.forgotten.push(peer@),
                ..shared
            },
            _ => shared,
        },
        _ => shared,
    }
}

/// What was said to other devices after a step.
pub open spec fn said_after(said: Said, step: Step) -> Said {
    match step {
        Step::BeginPairing { invitation } => Said {
            pairings: said.pairings.push(invitation@),
            ..said
        },
        Step::ConfirmPairing { session, approve } => Said {
            answers: said.answers.push((session@, approve)),
            ..said
        },
        Step::CancelPairing => Said { withdrawn: said.withdrawn + 1, ..said },
        Step::TestConnection { peer } => Said { tested: said.tested.push(peer@), ..said },
        Step::ContinueFrom { peer } => Said { continued: said.continued.push(peer@), ..said },
        Step::SendControl { peer, command } => Said {
            controls: said.controls.push((peer@, command)),
            ..said
        },
        Step::Download { peer, uri } => Said { downloads: said.downloads.push((peer@, uri@)), ..said },
        _ => said,
    }
}

/// The files that were written and read after a step.
pub open spec fn files_after(files: Files, step: Step) -> Files {
    match step {
        Step::ExportProfile => Files { exported: true, ..files },
        Step::StoreInSource { source_id, path } => Files {
            stored: files.stored.push((Some(source_id@), path@)),
            ..files
        },
        Step::StoreLocally { path } => Files { stored: files.stored.push((None, path@)), ..files },
        Step::FetchFromSource { source_id, path } => Files {
            fetched: Some((source_id@, path@)),
            ..files
        },
        Step::ImportFetched { replace, key } => match files.fetched {
            Some((source, path)) => Files {
                imports: files.imports.push((Some(source), path, replace, shown(key))),
                fetched: None,
                ..files
            },
            None => files,
        },
        Step::ImportFile { path, replace, key } => Files {
            imports: files.imports.push((None, path@, replace, shown(key))),
            ..files
        },
        _ => files,
    }
}

/// The device as it is once a step was made.
pub open spec fn made(device: DeviceModel, step: Step) -> DeviceModel {
    DeviceModel {
        sound: device.sound && possible(device, step),
        locked: (device.locked || step is LockSync) && !(step is UnlockSync),
        kept: kept_after(device.kept, step),
        live: live_after(device, step),
        display: display_after(device.display, step),
        followed: followed_after(device.followed, device.kept, step),
        shared: shared_after(device.shared, device.kept, step),
        said: said_after(device.said, step),
        files: files_after(device.files, step),
    }
}

/// The device as it is once the first steps were made.
pub open spec fn run(device: DeviceModel, steps: Seq<Step>, count: int) -> DeviceModel
    decreases count,
{
    if count <= 0 {
        device
    } else {
        made(run(device, steps, count - 1), steps[count - 1])
    }
}

/// The device as it is once all steps of an action were made.
pub open spec fn outcome(device: DeviceModel, owner: Owner, action: Action) -> DeviceModel {
    run(device, owner.steps(action), owner.steps(action).len() as int)
}

/// The model shows the device as it knows itself, and no plan is under way.
pub open spec fn shows(device: DeviceModel, owner: Owner) -> bool {
    let settings = owner.status.settings;
    &&& device.sound && !device.locked
    &&& device.kept.on == settings.enabled
    &&& device.kept.name == settings.name@
    &&& device.kept.profile == shown(settings.profile)
    &&& device.kept.setup_pending == settings.setup_pending
    &&& device.kept.encoding == settings.encoding
    &&& device.live.network == owner.network_open
    &&& device.live.joining == owner.joining
    &&& device.live.profile == match owner.session {
        Some(session) => OpenState::Known(session.profile@),
        None => OpenState::Closed,
    }
}

/// What two parts of a plan lead to, one after the other.
pub(crate) proof fn run_joined(device: DeviceModel, first: Seq<Step>, rest: Seq<Step>, count: int)
    requires
        0 <= count <= rest.len(),
    ensures
        run(device, first + rest, first.len() + count) == run(
            run(device, first, first.len() as int),
            rest,
            count,
        ),
    decreases count,
{
    if count == 0 {
        run_started(device, first, rest, first.len() as int);
    } else {
        run_joined(device, first, rest, count - 1);
        assert((first + rest)[first.len() + count - 1] == rest[count - 1]);
    }
}

pub(crate) proof fn run_started(device: DeviceModel, first: Seq<Step>, rest: Seq<Step>, count: int)
    requires
        0 <= count <= first.len(),
    ensures
        run(device, first + rest, count) == run(device, first, count),
    decreases count,
{
    if count > 0 {
        run_started(device, first, rest, count - 1);
        assert((first + rest)[count - 1] == first[count - 1]);
    }
}

/// The place that a change of the destination stands for.
pub open spec fn edited_place(edit: SettingsEdit) -> Place {
    match edit {
        SettingsEdit::Destination(Some(destination)) => Place::Given(destination),
        SettingsEdit::OwnFolder(profile) => Place::Own(profile@),
        _ => Place::Nowhere,
    }
}

pub(crate) proof fn enabled_anew(device: DeviceModel)
    requires
        device.sound && !device.locked,
        device.kept.profile is None,
    ensures
        run(device, seq![Step::Save(SettingsEdit::Enabled(true)), Step::LockSync, Step::CreateProfile, Step::UnlockSync, Step::Synchronize, Step::Show(Shown::ErrorCleared)], 6) == (DeviceModel {
            kept: (Kept { on: true, ..device.kept }),
            live: (Live {
                network: true,
                profile: OpenState::New,
                attached: true,
                capturing: true,
                ..device.live
            }),
            display: (Display { error: false, ..device.display }),
            followed: (Followed { synchronized: true, ..device.followed }),
            ..device
        }),
{
    reveal_with_fuel(run, 7);
}

pub(crate) proof fn enabled_known(device: DeviceModel, profile: String)
    requires
        device.sound && !device.locked,
        device.kept.profile == Some(profile@),
    ensures
        run(device, seq![Step::Save(SettingsEdit::Enabled(true)), Step::LockSync, Step::OpenProfile { profile, create: false }, Step::UnlockSync, Step::Synchronize, Step::Show(Shown::ErrorCleared)], 6) == (DeviceModel {
            kept: (Kept { on: true, ..device.kept }),
            live: opened(device.live, (Kept { on: true, ..device.kept }), profile@),
            display: (Display { error: false, ..device.display }),
            followed: (Followed { synchronized: true, ..device.followed }),
            ..device
        }),
{
    reveal_with_fuel(run, 7);
}

pub(crate) proof fn enabled_open(device: DeviceModel)
    requires
        device.sound && !device.locked,
    ensures
        run(device, seq![Step::Save(SettingsEdit::Enabled(true)), Step::Synchronize, Step::Show(Shown::ErrorCleared)], 3) == (DeviceModel {
            kept: (Kept { on: true, ..device.kept }),
            display: (Display { error: false, ..device.display }),
            followed: (Followed { synchronized: true, ..device.followed }),
            ..device
        }),
{
    reveal_with_fuel(run, 4);
}

pub(crate) proof fn discovered_known(device: DeviceModel, profile: String)
    requires
        device.sound && !device.locked,
        device.kept.profile == Some(profile@),
    ensures
        run(device, seq![Step::Save(SettingsEdit::Enabled(true)), Step::LockSync, Step::OpenProfile { profile, create: false }, Step::UnlockSync, Step::Show(Shown::ErrorCleared)], 5) == (DeviceModel {
            kept: (Kept { on: true, ..device.kept }),
            live: opened(device.live, (Kept { on: true, ..device.kept }), profile@),
            display: (Display { error: false, ..device.display }),
            ..device
        }),
{
    reveal_with_fuel(run, 6);
}

pub(crate) proof fn discovered_bare(device: DeviceModel)
    requires
        device.sound && !device.locked,
    ensures
        run(device, seq![Step::Save(SettingsEdit::Enabled(true)), Step::OpenNetwork, Step::Show(Shown::ErrorCleared)], 3) == (DeviceModel {
            kept: (Kept { on: true, ..device.kept }),
            live: (Live { network: true, ..device.live }),
            display: (Display { error: false, ..device.display }),
            ..device
        }),
{
    reveal_with_fuel(run, 4);
}

pub(crate) proof fn discovered_open(device: DeviceModel)
    requires
        device.sound && !device.locked,
    ensures
        run(device, seq![Step::Save(SettingsEdit::Enabled(true)), Step::Show(Shown::ErrorCleared)], 2) == (DeviceModel {
            kept: (Kept { on: true, ..device.kept }),
            display: (Display { error: false, ..device.display }),
            ..device
        }),
{
    reveal_with_fuel(run, 3);
}

pub(crate) proof fn answered_yes(device: DeviceModel, session: String, approve: bool)
    requires
        device.sound && !device.locked,
        device.live.network,
    ensures
        run(device, seq![Step::ConfirmPairing { session, approve }, Step::Show(Shown::PairingAnswered { session, approve }), Step::Show(Shown::ErrorCleared)], 3) == (DeviceModel {
            display: (Display { error: false, dialog: Dialog::Answered { session: session@, approve }, ..device.display }),
            said: (Said { answers: device.said.answers.push((session@, approve)), ..device.said }),
            ..device
        }),
{
    reveal_with_fuel(run, 4);
}

pub(crate) proof fn answered_no(device: DeviceModel, session: String, approve: bool)
    requires
        device.sound && !device.locked,
        device.live.network,
    ensures
        run(device, seq![Step::ConfirmPairing { session, approve }, Step::Show(Shown::PairingAnswered { session, approve }), Step::Show(Shown::EndPairing), Step::Show(Shown::ErrorCleared)], 4) == (DeviceModel {
            display: (Display { error: false, connecting: false, dialog: Dialog::Ended, ..device.display }),
            said: (Said { answers: device.said.answers.push((session@, approve)), ..device.said }),
            ..device
        }),
{
    reveal_with_fuel(run, 5);
}

pub(crate) proof fn answered_back(device: DeviceModel, session: String, approve: bool)
    requires
        device.sound && !device.locked,
        device.live.network,
    ensures
        run(device, seq![Step::ConfirmPairing { session, approve }, Step::Show(Shown::PairingAnswered { session, approve }), Step::Show(Shown::EndPairing), Step::RestoreAfterPairing, Step::Show(Shown::ErrorCleared)], 5) == (DeviceModel {
            kept: (Kept { setup_pending: false, ..device.kept }),
            live: reopened(device.live, (Kept { setup_pending: false, ..device.kept })),
            followed: (Followed { sources_told: false, media_told: false, ..device.followed }),
            display: (Display { error: false, connecting: false, dialog: Dialog::Ended, ..device.display }),
            said: (Said { answers: device.said.answers.push((session@, approve)), ..device.said }),
            ..device
        }),
{
    reveal_with_fuel(run, 6);
}

pub(crate) proof fn setup_finished_off(device: DeviceModel)
    requires
        device.sound && !device.locked,
        !(device.live.profile is Closed),
    ensures
        run(device, seq![Step::Save(SettingsEdit::SetupPending(false)), Step::SourcesChanged, Step::MediaChanged, Step::Show(Shown::SetupFinished), Step::Show(Shown::ErrorCleared)], 5) == (DeviceModel {
            kept: (Kept { setup_pending: false, ..device.kept }),
            display: (Display {
                error: false,
                completed_setups: device.display.completed_setups + 1,
                ..device.display
            }),
            followed: (Followed { sources_told: true, media_told: true, ..device.followed }),
            ..device
        }),
{
    reveal_with_fuel(run, 6);
}

pub(crate) proof fn setup_finished_on(device: DeviceModel)
    requires
        device.sound && !device.locked,
        !(device.live.profile is Closed),
        device.live.network,
    ensures
        run(device, seq![Step::AttachDocuments, Step::Save(SettingsEdit::SetupPending(false)), Step::SourcesChanged, Step::MediaChanged, Step::Show(Shown::SetupFinished), Step::Show(Shown::ErrorCleared)], 6) == (DeviceModel {
            live: (Live { attached: true, ..device.live }),
            kept: (Kept { setup_pending: false, ..device.kept }),
            display: (Display {
                error: false,
                completed_setups: device.display.completed_setups + 1,
                ..device.display
            }),
            followed: (Followed { sources_told: true, media_told: true, ..device.followed }),
            ..device
        }),
{
    reveal_with_fuel(run, 7);
}

pub(crate) proof fn nothing_done(device: DeviceModel)
    ensures
        run(device, seq![Step::Show(Shown::ErrorCleared)], 1) == (DeviceModel {
            display: (Display { error: false, ..device.display }),
            ..device
        }),
{
    reveal_with_fuel(run, 2);
}

pub(crate) proof fn key_shared(device: DeviceModel, peer: String, profile: String)
    requires
        device.sound && !device.locked,
        device.live.network,
        device.live.profile == OpenState::Known(profile@),
    ensures
        run(device, seq![Step::RemoveMember { peer }, Step::MakeKey, Step::LockSync, Step::InstallKey { profile }, Step::ShareKey], 5) == (DeviceModel {
            locked: true,
            shared: (Shared {
                removed: device.shared.removed.push(peer@),
                key: KeyState::Shared { profile: profile@, without: device.shared.removed.push(peer@) },
                ..device.shared
            }),
            ..device
        }),
{
    reveal_with_fuel(run, 6);
}

pub(crate) proof fn key_written(device: DeviceModel, peer: String, profile: Seq<char>, without: Seq<Seq<char>>)
    requires
        device.sound && device.locked && device.live.network,
        device.shared.key == (KeyState::Shared { profile, without }),
        without.contains(peer@),
    ensures
        run(device, seq![Step::WriteKeyAndForget { peer }, Step::UnlockSync, Step::Synchronize, Step::RefreshDevices, Step::Show(Shown::ErrorCleared)], 5) == (DeviceModel {
            locked: false,
            display: (Display { error: false, ..device.display }),
            followed: (Followed { synchronized: true, devices_refreshed: true, ..device.followed }),
            shared: (Shared {
                key: KeyState::Written { profile, without },
                forgotten: device.shared.forgotten.push(peer@),
                ..device.shared
            }),
            ..device
        }),
{
    reveal_with_fuel(run, 6);
}

pub(crate) proof fn reach_kept(device: DeviceModel, nearby: bool, relay: Option<String>, public_relay: bool)
    ensures
        run(device, seq![Step::Save(SettingsEdit::Network { nearby, relay, public_relay }), Step::ConfigureNetwork, Step::Show(Shown::ErrorCleared)], 3) == (DeviceModel {
            kept: (Kept { reach: (nearby, shown(relay), public_relay), ..device.kept }),
            display: (Display { error: false, ..device.display }),
            followed: (Followed { reach_applied: true, ..device.followed }),
            ..device
        }),
{
    reveal_with_fuel(run, 4);
}

pub(crate) proof fn reach_shared(device: DeviceModel, nearby: bool, relay: Option<String>, public_relay: bool)
    requires
        device.sound && !device.locked,
        !(device.live.profile is Closed),
    ensures
        run(device, seq![Step::WriteNetwork { relay, public_relay }, Step::Synchronize, Step::Save(SettingsEdit::Network { nearby, relay, public_relay }), Step::ConfigureNetwork, Step::Show(Shown::ErrorCleared)], 5) == (DeviceModel {
            kept: (Kept { reach: (nearby, shown(relay), public_relay), ..device.kept }),
            display: (Display { error: false, ..device.display }),
            followed: (Followed { reach_applied: true, synchronized: true, ..device.followed }),
            shared: (Shared { reach: Some((shown(relay), public_relay)), ..device.shared }),
            ..device
        }),
{
    reveal_with_fuel(run, 6);
}

pub(crate) proof fn destination_kept(device: DeviceModel, edit: SettingsEdit)
    requires
        edit is Destination || edit is OwnFolder,
    ensures
        run(device, seq![Step::Save(edit), Step::Show(Shown::ErrorCleared)], 2) == (DeviceModel {
            kept: (Kept { destination: edited_place(edit), ..device.kept }),
            display: (Display { error: false, ..device.display }),
            ..device
        }),
{
    reveal_with_fuel(run, 3);
}

pub(crate) proof fn destination_told(device: DeviceModel, edit: SettingsEdit, told: Option<Destination>)
    requires
        device.sound && !device.locked,
        !(device.live.profile is Closed),
        edit is Destination || edit is OwnFolder,
    ensures
        run(device, seq![Step::WriteDestination(told), Step::Save(edit), Step::Synchronize, Step::Show(Shown::ErrorCleared)], 4) == (DeviceModel {
            kept: (Kept { destination: edited_place(edit), ..device.kept }),
            display: (Display { error: false, ..device.display }),
            followed: (Followed { synchronized: true, ..device.followed }),
            shared: (Shared { destination: Some(told), ..device.shared }),
            ..device
        }),
{
    reveal_with_fuel(run, 5);
}

pub(crate) proof fn join_run(device: DeviceModel, invitation: String)
    requires
        device.sound && !device.locked,
    ensures
        run(device, seq![Step::Joining(true), Step::Show(Shown::BeginJoining), Step::Save(SettingsEdit::Enabled(true)), Step::OpenNetwork, Step::CloseProfile, Step::BeginPairing { invitation }, Step::Show(Shown::ErrorCleared)], 7) == (DeviceModel {
            kept: (Kept { on: true, ..device.kept }),
            live: (Live { network: true, joining: true, ..closed(device.live) }),
            display: (Display { connecting: true, error: false, ..device.display }),
            said: (Said { pairings: device.said.pairings.push(invitation@), ..device.said }),
            ..device
        }),
{
    reveal_with_fuel(run, 8);
}

pub(crate) proof fn disable_run(device: DeviceModel)
    requires
        device.sound && !device.locked,
    ensures
        run(device, seq![Step::LockSync, Step::Save(SettingsEdit::Enabled(false)), Step::CancelMediaJobs, Step::CloseNetwork, Step::Joining(false), Step::Show(Shown::Disabled), Step::UnlockSync, Step::Show(Shown::ErrorCleared)], 8) == (DeviceModel {
            kept: (Kept { on: false, ..device.kept }),
            live: (Live {
                network: false,
                attached: false,
                joining: false,
                transfers: false,
                ..device.live
            }),
            display: (Display {
                error: false,
                connecting: false,
                dialog: Dialog::Ended,
                ..device.display
            }),
            ..device
        }),
{
    reveal_with_fuel(run, 9);
}

pub(crate) proof fn rename_run(device: DeviceModel, name: String)
    requires
        device.sound && !device.locked,
    ensures
        run(device, seq![Step::Save(SettingsEdit::Name(name)), Step::PublishDevice, Step::Show(Shown::ErrorCleared)], 3) == (DeviceModel {
            kept: (Kept { name: name@, ..device.kept }),
            display: (Display { error: false, ..device.display }),
            followed: (Followed { name_applied: false, ..device.followed }),
            shared: (Shared { name: Some(name@), ..device.shared }),
            ..device
        }),
{
    reveal_with_fuel(run, 4);
}

pub(crate) proof fn rename_run_open(device: DeviceModel, name: String)
    requires
        device.sound && !device.locked,
        device.live.network,
    ensures
        run(device, seq![Step::Save(SettingsEdit::Name(name)), Step::RenameNetwork { name }, Step::PublishDevice, Step::Show(Shown::ErrorCleared)], 4) == (DeviceModel {
            kept: (Kept { name: name@, ..device.kept }),
            display: (Display { error: false, ..device.display }),
            followed: (Followed { name_applied: true, ..device.followed }),
            shared: (Shared { name: Some(name@), ..device.shared }),
            ..device
        }),
{
    reveal_with_fuel(run, 5);
}

pub(crate) proof fn refresh_run(device: DeviceModel)
    requires
        device.sound && !device.locked,
    ensures
        run(device, seq![Step::Synchronize, Step::Exchange, Step::Show(Shown::ErrorCleared)], 3) == (DeviceModel {
            display: (Display { error: false, ..device.display }),
            followed: (Followed { synchronized: true, exchanged: true, ..device.followed }),
            ..device
        }),
{
    reveal_with_fuel(run, 4);
}

pub(crate) proof fn refresh_run_on(device: DeviceModel)
    requires
        device.sound && !device.locked,
        device.kept.on,
    ensures
        run(device, seq![Step::Synchronize, Step::Exchange, Step::RefreshDevices, Step::Show(Shown::ErrorCleared)], 4) == (DeviceModel {
            display: (Display { error: false, ..device.display }),
            followed: (Followed {
                synchronized: true,
                exchanged: true,
                devices_refreshed: true,
                ..device.followed
            }),
            ..device
        }),
{
    reveal_with_fuel(run, 5);
}

pub(crate) proof fn encoding_run(device: DeviceModel, encoding: Encoding)
    ensures
        run(device, seq![Step::Save(SettingsEdit::Encoding(encoding)), Step::Show(Shown::ErrorCleared)], 2) == (DeviceModel {
            kept: (Kept { encoding, ..device.kept }),
            display: (Display { error: false, ..device.display }),
            followed: (Followed { media_told: false, ..device.followed }),
            ..device
        }),
{
    reveal_with_fuel(run, 3);
}

pub(crate) proof fn encoding_run_again(device: DeviceModel, encoding: Encoding)
    ensures
        run(device, seq![Step::Save(SettingsEdit::Encoding(encoding)), Step::MediaChanged, Step::Show(Shown::ErrorCleared)], 3) == (DeviceModel {
            kept: (Kept { encoding, ..device.kept }),
            display: (Display { error: false, ..device.display }),
            followed: (Followed { media_told: true, ..device.followed }),
            ..device
        }),
{
    reveal_with_fuel(run, 4);
}

pub(crate) proof fn export_run(device: DeviceModel, path: String)
    requires
        device.sound && !device.locked,
        !(device.live.profile is Closed),
    ensures
        run(device, seq![Step::ExportProfile, Step::StoreLocally { path }, Step::Show(Shown::ErrorCleared)], 3) == (DeviceModel {
            display: (Display { error: false, ..device.display }),
            files: (Files {
                exported: true,
                stored: device.files.stored.push((None, path@)),
                ..device.files
            }),
            ..device
        }),
{
    reveal_with_fuel(run, 4);
}

pub(crate) proof fn export_run_source(device: DeviceModel, source_id: String, path: String)
    requires
        device.sound && !device.locked,
        !(device.live.profile is Closed),
    ensures
        run(device, seq![Step::ExportProfile, Step::StoreInSource { source_id, path }, Step::Show(Shown::ErrorCleared)], 3) == (DeviceModel {
            display: (Display { error: false, ..device.display }),
            files: (Files {
                exported: true,
                stored: device.files.stored.push((Some(source_id@), path@)),
                ..device.files
            }),
            ..device
        }),
{
    reveal_with_fuel(run, 4);
}

pub(crate) proof fn import_run(device: DeviceModel, path: String, replace: bool, key: Option<String>)
    requires
        device.sound && !device.locked,
    ensures
        run(device, seq![Step::ImportFile { path, replace, key }, Step::Show(Shown::ErrorCleared)], 2) == (DeviceModel {
            display: (Display { error: false, ..device.display }),
            files: (Files {
                imports: device.files.imports.push((None, path@, replace, shown(key))),
                ..device.files
            }),
            ..device
        }),
{
    reveal_with_fuel(run, 3);
}

pub(crate) proof fn import_run_source(device: DeviceModel, source_id: String, path: String, replace: bool, key: Option<String>)
    requires
        device.sound && !device.locked,
    ensures
        run(device, seq![Step::FetchFromSource { source_id, path }, Step::ImportFetched { replace, key }, Step::Show(Shown::ErrorCleared)], 3) == (DeviceModel {
            display: (Display { error: false, ..device.display }),
            files: (Files {
                fetched: None,
                imports: device.files.imports.push(
                    (Some(source_id@), path@, replace, shown(key)),
                ),
                ..device.files
            }),
            ..device
        }),
{
    reveal_with_fuel(run, 4);
}

pub(crate) proof fn leave_run(device: DeviceModel)
    requires
        device.sound && !device.locked,
    ensures
        run(device, seq![Step::LockSync, Step::LeaveProfile, Step::UnlockSync, Step::Show(Shown::ErrorCleared)], 4) == (DeviceModel {
            kept: kept_after_leaving(device.kept),
            live: (Live { network: false, joining: false, ..closed(device.live) }),
            display: (Display {
                error: false,
                connecting: false,
                dialog: Dialog::Ended,
                ..device.display
            }),
            ..device
        }),
{
    reveal_with_fuel(run, 5);
}

} // verus!
