//! What the plans lead to by which a profile is opened, and by which an open network follows the
//! settings.

use vstd::prelude::*;

use crate::connect::actions::{Shown, Step};
use crate::connect::owner::Owner;
use crate::connect::plan_model::{
    run, run_joined, shows, DeviceModel, Followed, KeyState, Kept, Live, OpenState, Place, Shared,
};
use crate::connect::settings::{Destination, SettingsEdit};
use crate::text::shown;

verus! {

/// The settings are those of the device.
pub open spec fn knows(device: DeviceModel, owner: Owner) -> bool {
    &&& device.sound
    &&& device.kept.on == owner.status.settings.enabled
    &&& device.kept.setup_pending == owner.status.settings.setup_pending
    &&& device.live.joining == owner.joining
}

proof fn unlock_run_new(device: DeviceModel, profile: String)
    requires
        device.sound,
    ensures
        run(device, seq![Step::MakeKey, Step::InstallKey { profile }, Step::OpenDocuments { profile }], 3) == (DeviceModel {
            live: (Live { profile: OpenState::Known(profile@), ..device.live }),
            shared: (Shared {
                key: KeyState::Installed { profile: profile@ },
                ..device.shared
            }),
            ..device
        }),
{
    reveal_with_fuel(run, 4);
}

proof fn unlock_run(device: DeviceModel, profile: String)
    requires
        device.sound,
    ensures
        run(device, seq![Step::OpenDocuments { profile }], 1) == (DeviceModel {
            live: (Live { profile: OpenState::Known(profile@), ..device.live }),
            ..device
        }),
{
    reveal_with_fuel(run, 2);
}

proof fn unlock_run_first(device: DeviceModel, profile: String)
    requires
        device.sound,
    ensures
        run(device, seq![Step::Save(SettingsEdit::FileProfile(profile)), Step::OpenDocuments { profile }], 2) == (DeviceModel {
            live: (Live { profile: OpenState::Known(profile@), ..device.live }),
            ..device
        }),
{
    reveal_with_fuel(run, 3);
}

/// A profile's documents are opened under its own name, with a new key where there was none.
pub proof fn profiles_are_unlocked_by_their_key(
    device: DeviceModel,
    owner: Owner,
    profile: String,
    key_found: bool,
)
    requires
        device.sound,
    ensures
        ({
            let steps = owner.unlock_steps(profile, key_found);
            run(device, steps, steps.len() as int) == (DeviceModel {
                live: (Live { profile: OpenState::Known(profile@), ..device.live }),
                shared: (Shared {
                    key: if key_found {
                        device.shared.key
                    } else {
                        KeyState::Installed { profile: profile@ }
                    },
                    ..device.shared
                }),
                ..device
            })
        }),
{
    let steps = owner.unlock_steps(profile, key_found);
    let open = Step::OpenDocuments { profile };
    if !key_found {
        unlock_run_new(device, profile);
        assert(steps =~= seq![Step::MakeKey, Step::InstallKey { profile }, open]);
    } else if owner.status.settings.knows_profile(profile@) {
        unlock_run(device, profile);
        assert(steps =~= seq![open]);
    } else {
        unlock_run_first(device, profile);
        assert(steps =~= seq![Step::Save(SettingsEdit::FileProfile(profile)), open]);
    }
}

/// A profile that is open goes on the network exactly on a device that is switched on, and its
/// documents are exchanged there unless the device is still to be set up.
pub proof fn open_profiles_go_on_the_network(
    device: DeviceModel,
    owner: Owner,
    profile: String,
    create: bool,
)
    requires
        knows(device, owner),
        device.live.profile == OpenState::Known(profile@),
    ensures
        ({
            let steps = owner.enter_steps(profile, create);
            run(device, steps, steps.len() as int) == (DeviceModel {
                live: (Live {
                    network: device.live.network || device.kept.on,
                    attached: device.live.attached || (device.kept.on
                        && !device.kept.setup_pending),
                    ..device.live
                }),
                ..device
            })
        }),
{
    let steps = owner.enter_steps(profile, create);
    let settings = owner.status.settings;
    let enter = Step::EnterProfile { profile, create };
    reveal_with_fuel(run, 5);
    if !settings.enabled {
        assert(steps =~= Seq::<Step>::empty());
    } else if settings.setup_pending && settings.established {
        assert(steps =~= seq![Step::OpenNetwork, enter]);
    } else if settings.setup_pending {
        assert(steps =~= seq![Step::OpenNetwork, enter, Step::EstablishIfShared]);
    } else if settings.established {
        assert(steps =~= seq![Step::OpenNetwork, enter, Step::AttachDocuments]);
    } else {
        assert(steps =~= seq![
            Step::OpenNetwork,
            enter,
            Step::AttachDocuments,
            Step::EstablishIfShared,
        ]);
    }
}

/// A profile is remembered unless it is only being joined, its files go to its own folder where no
/// other place was chosen, and the library is looked through for it.
pub proof fn open_profiles_are_remembered(device: DeviceModel, owner: Owner, profile: String)
    requires
        knows(device, owner),
    ensures
        ({
            let steps = owner.remember_steps(profile);
            run(device, steps, steps.len() as int) == (DeviceModel {
                kept: (Kept {
                    profile: if device.live.joining {
                        device.kept.profile
                    } else {
                        Some(profile@)
                    },
                    destination: match owner.status.settings.destination {
                        Some(Destination::Remote { .. }) => device.kept.destination,
                        Some(Destination::Local { path }) if path@.len() > 0 =>
                            device.kept.destination,
                        _ => Place::Own(profile@),
                    },
                    ..device.kept
                }),
                live: (Live { capturing: true, ..device.live }),
                ..device
            })
        }),
{
    let settings = owner.status.settings;
    let blank = settings.destination is None || settings.destination->0.blank();
    let one = seq![Step::Capture(true)] + (if owner.joining {
        seq![]
    } else {
        seq![Step::Save(SettingsEdit::Profile(profile))]
    });
    let two = (if blank {
        seq![Step::Save(SettingsEdit::OwnFolder(profile))]
    } else {
        seq![]
    }) + (if settings.setup_pending {
        seq![Step::Show(Shown::AwaitSetup)]
    } else {
        seq![]
    });
    assert(owner.remember_steps(profile) =~= one + two);
    first_remembered(device, owner.joining, profile);
    let between = run(device, one, one.len() as int);
    then_remembered(between, blank, settings.setup_pending, profile);
    run_joined(device, one, two, two.len() as int);
}

proof fn first_remembered(device: DeviceModel, joining: bool, profile: String)
    ensures
        ({
            let steps = seq![Step::Capture(true)] + (if joining {
                seq![]
            } else {
                seq![Step::Save(SettingsEdit::Profile(profile))]
            });
            run(device, steps, steps.len() as int) == (DeviceModel {
                kept: (Kept {
                    profile: if joining {
                        device.kept.profile
                    } else {
                        Some(profile@)
                    },
                    ..device.kept
                }),
                live: (Live { capturing: true, ..device.live }),
                ..device
            })
        }),
{
    reveal_with_fuel(run, 3);
}

proof fn then_remembered(device: DeviceModel, blank: bool, pending: bool, profile: String)
    requires
        device.sound,
        device.kept.setup_pending == pending,
    ensures
        ({
            let steps = (if blank {
                seq![Step::Save(SettingsEdit::OwnFolder(profile))]
            } else {
                seq![]
            }) + (if pending {
                seq![Step::Show(Shown::AwaitSetup)]
            } else {
                seq![]
            });
            run(device, steps, steps.len() as int) == (DeviceModel {
                kept: (Kept {
                    destination: if blank {
                        Place::Own(profile@)
                    } else {
                        device.kept.destination
                    },
                    ..device.kept
                }),
                ..device
            })
        }),
{
    reveal_with_fuel(run, 3);
}

/// A new profile says how its devices are reached, and names its destination where that is in a
/// source; it also has the name of this device.
pub proof fn new_profiles_share_their_settings(device: DeviceModel, owner: Owner)
    requires
        device.sound,
        !(device.live.profile is Closed),
    ensures
        ({
            let settings = owner.status.settings;
            run(device, seq![owner.profile_record(), Step::PublishDevice], 2) == (DeviceModel {
                shared: (Shared {
                    name: Some(device.kept.name),
                    reach: Some((shown(settings.relay), settings.public_relay)),
                    destination: Some(
                        match settings.destination {
                            Some(Destination::Remote { source_id, path }) => settings.destination,
                            _ => None,
                        },
                    ),
                    ..device.shared
                }),
                ..device
            })
        }),
{
    reveal_with_fuel(run, 3);
}

/// Opening a profile is all of this in turn: it is unlocked, goes on the network, tells the others
/// of itself where it is new, and is remembered.
pub proof fn opened_profiles_are_open_and_remembered(
    device: DeviceModel,
    owner: Owner,
    profile: String,
    create: bool,
    key_found: bool,
)
    requires
        knows(device, owner),
    ensures
        ({
            let steps = owner.open_steps(profile, create, key_found);
            let end = run(device, steps, steps.len() as int);
            &&& end.sound && end.locked == device.locked
            &&& end.live == (Live {
                profile: OpenState::Known(profile@),
                network: device.live.network || device.kept.on,
                attached: device.live.attached || (device.kept.on && !device.kept.setup_pending),
                capturing: true,
                ..device.live
            })
            &&& !device.live.joining ==> end.kept.profile == Some(profile@)
            &&& device.live.joining ==> end.kept.profile == device.kept.profile
            &&& end.kept.on == device.kept.on && end.kept.name == device.kept.name
            &&& create ==> end.shared.name == Some(device.kept.name)
            &&& create ==> end.shared.reach == Some(
                (shown(owner.status.settings.relay), owner.status.settings.public_relay),
            )
            &&& !create ==> end.shared.name == device.shared.name && end.shared.reach
                == device.shared.reach
            &&& !key_found ==> end.shared.key == (KeyState::Installed { profile: profile@ })
            &&& key_found ==> end.shared.key == device.shared.key
            &&& end.said == device.said && end.files == device.files
        }),
{
    let unlock = owner.unlock_steps(profile, key_found);
    let enter = owner.enter_steps(profile, create);
    let record = if create {
        seq![owner.profile_record(), Step::PublishDevice]
    } else {
        seq![]
    };
    let remember = owner.remember_steps(profile);
    assert(owner.open_steps(profile, create, key_found) == unlock + enter + record + remember);
    profiles_are_unlocked_by_their_key(device, owner, profile, key_found);
    let d1 = run(device, unlock, unlock.len() as int);
    open_profiles_go_on_the_network(d1, owner, profile, create);
    let d2 = run(d1, enter, enter.len() as int);
    if create {
        new_profiles_share_their_settings(d2, owner);
    }
    let d3 = run(d2, record, record.len() as int);
    open_profiles_are_remembered(d3, owner, profile);
    run_joined(device, unlock, enter, enter.len() as int);
    run_joined(device, unlock + enter, record, record.len() as int);
    run_joined(device, unlock + enter + record, remember, remember.len() as int);
}

/// An open network that does not follow the settings is opened again as they say, and the open
/// profile goes back on it; one that follows them is left alone.
pub proof fn networks_are_opened_again_with_their_profile(
    device: DeviceModel,
    owner: Owner,
    matches: bool,
)
    requires
        shows(device, owner),
    ensures
        ({
            let steps = owner.configure_steps(matches);
            run(device, steps, steps.len() as int) == if owner.network_open && !matches {
                DeviceModel {
                    live: (Live {
                        attached: owner.session is Some && !device.kept.setup_pending,
                        ..device.live
                    }),
                    followed: (Followed { reach_applied: true, ..device.followed }),
                    ..device
                }
            } else {
                device
            }
        }),
{
    let steps = owner.configure_steps(matches);
    reveal_with_fuel(run, 4);
    if owner.network_open && !matches {
        match owner.session {
            Some(session) => {
                let reenter = Step::ReenterProfile { profile: session.profile };
                if owner.status.settings.setup_pending {
                    assert(steps =~= seq![Step::RestartNetwork, reenter]);
                } else {
                    assert(steps =~= seq![Step::RestartNetwork, reenter, Step::AttachDocuments]);
                }
            },
            None => {
                assert(steps =~= seq![Step::RestartNetwork]);
            },
        }
    }
}

} // verus!
