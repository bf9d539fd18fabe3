//! The model of a device is faithful: what the settings and the shown state become is what the model
//! says of the step that changes them.

use vstd::prelude::*;

use crate::connect::actions::{shown_after, Shown, Step};
use crate::connect::plan_model::{
    display_after, kept_after, Dialog, Display, Kept, };
use crate::connect::settings::{edited, ConnectSettings, Destination, SettingsEdit};
use crate::connect::status::{pairs_with, Status};
use crate::paths::PathStyle;
use crate::text::shown;

verus! {

/// The model says of a device what its settings say, as far as they do not speak of places.
pub open spec fn says(kept: Kept, settings: ConnectSettings) -> bool {
    &&& kept.on == settings.enabled
    &&& kept.name == settings.name@
    &&& kept.profile == shown(settings.profile)
    &&& kept.setup_pending == settings.setup_pending
    &&& kept.encoding == settings.encoding
    &&& kept.reach == (settings.nearby, shown(settings.relay), settings.public_relay)
}

/// A change of the settings does what the model says, and nothing else.
pub proof fn edits_do_what_they_say(
    kept: Kept,
    style: PathStyle,
    before: ConnectSettings,
    edit: SettingsEdit,
    directory: Seq<char>,
    after: ConnectSettings,
)
    requires
        says(kept, before),
        edited(style, before, edit, directory, after),
        !(edit is Adopting),
    ensures
        says(kept_after(kept, Step::Save(edit)), after),
        !(edit is IdentityRef) ==> after.identity_ref == before.identity_ref,
        !(edit is FileProfile) ==> after.file_profiles@ == before.file_profiles@,
        !(edit is Folder) ==> after.folders == before.folders,
        !(edit is ContinuedQueue) ==> after.continued_queue == before.continued_queue,
        !(edit is Destination) && !(edit is OwnFolder) && !(edit is RemoteForgotten) && !(
        edit is Left) ==> after.destination == before.destination,
        after.adopting ==> before.adopting,
        edit is Adopted || edit is Established ==> after.established,
        edit is Adopted || edit is Left ==> !after.adopting,
        after.established && !before.established ==> edit is Adopted || edit is Established,
{
}

/// A device that takes over a profile remembers it at once, with all else as it was, and knows that
/// it is not done yet; files that were kept on this device go to the folder of that profile.
pub proof fn adopted_profiles_are_remembered_at_once(
    kept: Kept,
    style: PathStyle,
    before: ConnectSettings,
    profile: String,
    directory: Seq<char>,
    after: ConnectSettings,
)
    requires
        says(kept, before),
        edited(style, before, SettingsEdit::Adopting(profile), directory, after),
    ensures
        says((Kept { profile: Some(profile@), ..kept }), after),
        after.adopting,
        after.established == before.established,
        after.folders == before.folders && after.file_profiles == before.file_profiles,
        before.destination is None ==> after.destination is None,
        before.destination matches Some(Destination::Remote { .. }) ==> after.destination
            == before.destination,
        before.destination matches Some(Destination::Local { .. }) ==> after.destination matches Some(
            Destination::Local { .. },
        ),
{
}

/// A chosen destination is the one that is kept. One that is given up for the folder of the profile
/// is on this device from then on, and one that a source has lost is, too; another is not touched.
pub proof fn destinations_are_kept_as_chosen(
    style: PathStyle,
    before: ConnectSettings,
    edit: SettingsEdit,
    directory: Seq<char>,
    after: ConnectSettings,
)
    requires
        edited(style, before, edit, directory, after),
    ensures
        edit matches SettingsEdit::Destination(chosen) ==> after.destination == chosen,
        edit is OwnFolder ==> (after.destination matches Some(Destination::Local { .. })),
        edit is RemoteForgotten ==> !(after.destination matches Some(Destination::Remote { .. })),
        edit is RemoteForgotten && !(before.destination matches Some(Destination::Remote { .. }))
            ==> after.destination == before.destination,
        edit is Left ==> after.destination is None,
{
}

/// A folder is found again for the source and the root it was chosen for until it is taken away, and
/// the folders of others stay.
pub proof fn folders_are_found_again(
    style: PathStyle,
    before: ConnectSettings,
    source: String,
    root: Option<String>,
    path: String,
    directory: Seq<char>,
    after: ConnectSettings,
    other: Seq<char>,
)
    requires
        edited(
            style,
            before,
            (SettingsEdit::Folder { source, root_id: root, path }),
            directory,
            after,
        ),
    ensures
        ({
            let key = match root {
                Some(root) => source@ + "/"@ + root@,
                None => source@,
            };
            &&& path@.len() > 0 ==> after.folders@.dom().contains(key) && after.folders@[key]
                == path
            &&& path@.len() == 0 ==> !after.folders@.dom().contains(key)
            &&& other != key ==> (after.folders@.dom().contains(other)
                == before.folders@.dom().contains(other) && (before.folders@.dom().contains(other)
                ==> after.folders@[other] == before.folders@[other]))
        }),
{
}

/// The model shows what the device shows.
pub open spec fn displays(display: Display, status: Status) -> bool {
    &&& display.error == (status.error is Some)
    &&& display.connecting == status.connecting
    &&& display.completed_setups == status.completed_pairings
    &&& display.dialog is Ended ==> status.pairing is None
    &&& display.dialog matches Dialog::Answered { session, approve } ==> (pairs_with(
        status.pairing,
        session,
    ) ==> status.pairing->0.approved == approve)
}

/// A change of the shown state does what the model says.
pub proof fn changes_show_what_they_say(
    display: Display,
    before: Status,
    change: Shown,
    after: Status,
)
    requires
        displays(display, before),
        shown_after(before, change, after),
        before.completed_pairings < u64::MAX,
    ensures
        displays(display_after(display, Step::Show(change)), after),
        after.settings == before.settings,
        after.local_folder == before.local_folder,
        change is Left ==> after.devices@.len() == 0 && after.identity is None,
        !(change is Left) && !(change is Disabled) ==> after.devices == before.devices,
        !(change is Left) ==> after.identity == before.identity,
        !(change is Left) && !(change is Disabled) ==> after.invitation == before.invitation,
        !(change is PairingAnswered) && !(change is Disabled) && !(change is Left) && !(
        change is EndPairing) ==> after.pairing == before.pairing,
{
}

} // verus!
