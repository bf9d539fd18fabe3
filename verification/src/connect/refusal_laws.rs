//! Which actions are refused, and what the plans that others refer to lead to.

use vstd::prelude::*;

use crate::connect::actions::{Action, Shown, Step};
use crate::connect::owner::{Owner, Refusal};
use crate::connect::plan_laws::{
    approved_pairings_are_not_answered_again, cancelled_pairings_restore_the_profile,
    commands_reach_the_named_device, creating_makes_a_new_profile,
    destinations_in_sources_are_shared, disabling_goes_off_the_network,
    discovering_opens_the_network, downloads_come_from_the_named_device, enabling_opens_the_profile,
    encodings_are_kept, exports_go_to_the_named_place, finished_setups_attach_the_documents,
    folders_are_kept_for_their_source, imports_read_the_named_file, joins_begin_pairing,
    leaving_closes_everything, networks_follow_the_settings, pairings_are_answered_as_the_user_says,
    playback_continues_from_the_named_device, refreshing_follows_the_profile,
    removed_devices_get_no_new_key, renaming_tells_everyone, tests_reach_the_named_device,
};
use crate::connect::plan_model::{
    made, nothing_done, outcome, possible, run, shows, DeviceModel, OpenState,
};
use crate::connect::settings::SettingsEdit;
use crate::redaction::{url_error, url_scheme};

verus! {

/// The user has agreed to what the action costs, and its input can be read.
pub open spec fn agreed(owner: Owner, action: Action) -> bool {
    match action {
        Action::Join { replace, .. } => replace,
        Action::Encoding { encoding, confirm } => confirm || encoding
            == owner.status.settings.encoding || !owner.status.settings.established
            || owner.status.settings.setup_pending,
        Action::Network { relay: Some(relay), .. } => url_scheme(relay@) is Some,
        _ => true,
    }
}

/// An action that is not refused is one that the user has agreed to, and all its steps can be made.
pub proof fn accepted_actions_can_be_made(device: DeviceModel, owner: Owner, action: Action)
    requires
        shows(device, owner),
        owner.refusal(action) is None,
    ensures
        agreed(owner, action),
        outcome(device, owner, action).sound,
        !outcome(device, owner, action).locked,
{
    match action {
        Action::Enable { enabled } => if enabled {
            enabling_opens_the_profile(device, owner);
        } else {
            disabling_goes_off_the_network(device, owner);
        },
        Action::Create => creating_makes_a_new_profile(device, owner),
        Action::Join { invitation, replace } => joins_begin_pairing(
            device,
            owner,
            invitation,
            replace,
        ),
        Action::Pair { session, approve } => if approve && (
        owner.status.pairing matches Some(pairing) && pairing.session@ == session@
            && pairing.approved) {
            approved_pairings_are_not_answered_again(device, owner, session);
        } else {
            pairings_are_answered_as_the_user_says(device, owner, session, approve);
        },
        Action::CancelPairing => cancelled_pairings_restore_the_profile(device, owner),
        Action::FinishSetup => finished_setups_attach_the_documents(device, owner),
        Action::Rename { name } => renaming_tells_everyone(device, owner, name),
        Action::Remove { peer } => removed_devices_get_no_new_key(device, owner, peer),
        Action::Leave => leaving_closes_everything(device, owner),
        Action::Refresh => refreshing_follows_the_profile(device, owner),
        Action::Discover => discovering_opens_the_network(device, owner),
        Action::TestConnection { peer } => tests_reach_the_named_device(device, owner, peer),
        Action::Network { nearby, relay, public_relay } => networks_follow_the_settings(
            device,
            owner,
            nearby,
            relay,
            public_relay,
        ),
        Action::Continue { peer } => playback_continues_from_the_named_device(device, owner, peer),
        Action::Control { peer, command } => commands_reach_the_named_device(
            device,
            owner,
            peer,
            command,
        ),
        Action::Folder { source, root_id, path } => folders_are_kept_for_their_source(
            device,
            owner,
            source,
            root_id,
            path,
        ),
        Action::Encoding { encoding, confirm } => encodings_are_kept(
            device,
            owner,
            encoding,
            confirm,
        ),
        Action::Download { peer, uri } => downloads_come_from_the_named_device(
            device,
            owner,
            peer,
            uri,
        ),
        Action::CancelDownload => {
            nothing_done(device);
            assert(owner.steps(action) =~= seq![Step::Show(Shown::ErrorCleared)]);
        },
        Action::Destination { destination } => destinations_in_sources_are_shared(
            device,
            owner,
            destination,
        ),
        Action::Export { path, source_id } => exports_go_to_the_named_place(
            device,
            owner,
            path,
            source_id,
        ),
        Action::Import { path, source_id, replace, key } => imports_read_the_named_file(
            device,
            owner,
            path,
            source_id,
            replace,
            key,
        ),
    }
}

proof fn stays_stuck(device: DeviceModel, steps: Seq<Step>, from: int, count: int)
    requires
        0 <= from <= count,
        !run(device, steps, from).sound,
    ensures
        !run(device, steps, count).sound,
    decreases count,
{
    if from < count {
        stays_stuck(device, steps, from, count - 1);
    }
}

proof fn stuck_at_once(device: DeviceModel, steps: Seq<Step>)
    requires
        steps.len() > 0,
        !possible(device, steps[0]),
    ensures
        !run(device, steps, steps.len() as int).sound,
{
    reveal_with_fuel(run, 2);
    stays_stuck(device, steps, 1, steps.len() as int);
}

/// An action that the user has agreed to is refused only where one of its steps could not be made:
/// nothing that can be done is refused.
pub proof fn refused_actions_could_not_be_made(device: DeviceModel, owner: Owner, action: Action)
    requires
        shows(device, owner),
        owner.refusal(action) is Some,
        agreed(owner, action),
    ensures
        !outcome(device, owner, action).sound,
{
    let steps = owner.steps(action);
    match action {
        Action::Create => {
            reveal_with_fuel(run, 4);
            let first = seq![Step::Save(SettingsEdit::Enabled(true)), Step::LockSync];
            let before = run(device, steps, 2);
            assert(steps[0] == first[0] && steps[1] == first[1]);
            assert(before.kept.profile is Some);
            assert(steps[2] == Step::CreateProfile);
            stays_stuck(device, steps, 3, steps.len() as int);
        },
        Action::FinishSetup => if owner.status.settings.enabled {
            assert(steps[0] == Step::AttachDocuments);
            stuck_at_once(device, steps);
        } else {
            assert(steps[0] == Step::Save(SettingsEdit::SetupPending(false)));
            assert(steps[1] == Step::SourcesChanged);
            assert(steps[2] == Step::MediaChanged);
            assert(steps[3] == Step::Show(Shown::SetupFinished));
            reveal_with_fuel(run, 5);
            assert(run(device, steps, 3).live == device.live);
            stays_stuck(device, steps, 4, steps.len() as int);
        },
        Action::Pair { session, approve } => {
            assert(steps[0] == (Step::ConfirmPairing { session, approve }));
            stuck_at_once(device, steps);
        },
        _ => {
            stuck_at_once(device, steps);
        },
    }
}

/// A refusal says what is missing: consent, a profile, or the network; or what is wrong with the
/// relay, or that there is a profile already.
pub proof fn refusals_say_what_is_missing(owner: Owner, action: Action)
    ensures
        owner.refusal(action) matches Some(message) ==> {
            ||| message == Refusal::NoProfile.message() && owner.session is None
            ||| message == Refusal::Disabled.message() && !owner.network_open && !(action is Export)
                && (action is Remove || action is FinishSetup ==> owner.session is Some)
            ||| message == Refusal::AlreadyHasProfile.message() && action is Create
                && owner.status.settings.profile is Some
            ||| message == Refusal::ReplaceRequired.message() && (action matches Action::Join {
                replace,
                ..
            } && !replace)
            ||| message == Refusal::RedownloadRequired.message() && action is Encoding && !agreed(
                owner,
                action,
            )
            ||| (action matches Action::Network { relay: Some(relay), .. } && message == url_error(
                relay@,
            ) && url_scheme(relay@) is None)
        },
{
}

/// The step `at` is the one that begins pairing, behind those that open the network and close the
/// profile.
pub open spec fn pairs_behind(
    steps: Seq<Step>,
    invitation: String,
    at: int,
    opens: int,
    closes: int,
) -> bool {
    &&& 0 <= opens < at && 0 <= closes < at && at < steps.len()
    &&& steps[at] == (Step::BeginPairing { invitation })
    &&& steps[opens] is OpenNetwork
    &&& steps[closes] is CloseProfile
    &&& forall|other: int|
        0 <= other < steps.len() && other != at ==> !(#[trigger] steps[other] is BeginPairing)
}

/// The pairing of a join begins once, with the invitation that was given, and only once the network
/// is open and the own profile is closed; and it is the only thing that the invitation is used for.
pub proof fn joins_begin_pairing_once_and_in_order(owner: Owner, invitation: String, replace: bool)
    requires
        owner.refusal((Action::Join { invitation, replace })) is None,
    ensures
        exists|at: int, opens: int, closes: int| #[trigger]
            pairs_behind(
                owner.steps((Action::Join { invitation, replace })),
                invitation,
                at,
                opens,
                closes,
            ),
{
    let steps = owner.steps((Action::Join { invitation, replace }));
    assert(steps[5] == (Step::BeginPairing { invitation }));
    assert(pairs_behind(steps, invitation, 5, 3, 4));
}

/// The steps by which a device leaves its profile do what leaving stands for.
pub proof fn leave_steps_leave(device: DeviceModel)
    requires
        device.sound && device.locked,
    ensures
        run(device, Owner::leave_steps(), Owner::leave_steps().len() as int) == made(
            device,
            Step::LeaveProfile,
        ),
{
    reveal_with_fuel(run, 7);
}

proof fn reopen_run_open(device: DeviceModel, profile: String)
    requires
        device.sound && !device.locked,
        device.live.network,
        device.kept.profile == Some(profile@),
    ensures
        run(device, seq![Step::LockSync, Step::CloseProfile, Step::StopSession, Step::OpenProfile { profile, create: false }, Step::Joining(false), Step::UnlockSync], 6) == made(device, Step::ReopenProfile),
{
    reveal_with_fuel(run, 7);
}

proof fn reopen_run(device: DeviceModel, profile: String)
    requires
        device.sound && !device.locked,
        device.kept.profile == Some(profile@),
    ensures
        run(device, seq![Step::LockSync, Step::StopSession, Step::OpenProfile { profile, create: false }, Step::Joining(false), Step::UnlockSync], 5) == made(device, Step::ReopenProfile),
{
    reveal_with_fuel(run, 6);
}

proof fn reopen_run_bare_open(device: DeviceModel)
    requires
        device.sound && !device.locked,
        device.live.network,
        device.kept.profile is None,
    ensures
        run(device, seq![Step::LockSync, Step::CloseProfile, Step::StopSession, Step::Joining(false), Step::UnlockSync], 5) == made(device, Step::ReopenProfile),
{
    reveal_with_fuel(run, 6);
}

proof fn reopen_run_bare(device: DeviceModel)
    requires
        device.sound && !device.locked,
        device.kept.profile is None,
    ensures
        run(device, seq![Step::LockSync, Step::StopSession, Step::Joining(false), Step::UnlockSync], 4) == made(device, Step::ReopenProfile),
{
    reveal_with_fuel(run, 5);
}

/// The steps by which the remembered profile is opened afresh do what reopening stands for.
pub proof fn reopen_steps_reopen(device: DeviceModel, owner: Owner)
    requires
        shows(device, owner),
    ensures
        run(device, owner.reopen_steps(), owner.reopen_steps().len() as int) == made(
            device,
            Step::ReopenProfile,
        ),
{
    let steps = owner.reopen_steps();
    match owner.status.settings.profile {
        Some(profile) => {
            let open = Step::OpenProfile { profile, create: false };
            if owner.network_open {
                reopen_run_open(device, profile);
                assert(steps =~= seq![
                    Step::LockSync,
                    Step::CloseProfile,
                    Step::StopSession,
                    open,
                    Step::Joining(false),
                    Step::UnlockSync,
                ]);
            } else {
                reopen_run(device, profile);
                assert(steps =~= seq![
                    Step::LockSync,
                    Step::StopSession,
                    open,
                    Step::Joining(false),
                    Step::UnlockSync,
                ]);
            }
        },
        None => if owner.network_open {
            reopen_run_bare_open(device);
            assert(steps =~= seq![
                Step::LockSync,
                Step::CloseProfile,
                Step::StopSession,
                Step::Joining(false),
                Step::UnlockSync,
            ]);
        } else {
            reopen_run_bare(device);
            assert(steps =~= seq![
                Step::LockSync,
                Step::StopSession,
                Step::Joining(false),
                Step::UnlockSync,
            ]);
        },
    }
}

/// The steps after a pairing that came to nothing bring back what was there before, as restoring
/// stands for.
pub proof fn restore_steps_restore(device: DeviceModel)
    requires
        device.sound && !device.locked,
    ensures
        run(device, Owner::restore_steps(), Owner::restore_steps().len() as int) == made(
            device,
            Step::RestoreAfterPairing,
        ),
{
    reveal_with_fuel(run, 5);
}

/// A join that failed on its way brings back the profile that the device had; other actions that
/// failed leave nothing to be undone.
pub proof fn failed_joins_bring_the_profile_back(device: DeviceModel, action: Action, profile: Seq<char>)
    requires
        device.sound && !device.locked,
        device.kept.profile == Some(profile),
    ensures
        ({
            let steps = Owner::recovery_steps(action);
            let after = run(device, steps, steps.len() as int);
            &&& action is Join ==> after.sound && after.live.profile == OpenState::Known(profile)
                && !after.live.joining && !after.display.connecting && after.display.dialog is Ended
            &&& !(action is Join) ==> after == device
        }),
{
    reveal_with_fuel(run, 2);
}

} // verus!
