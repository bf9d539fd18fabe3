//! The state of Connect that clients are shown, and how it changes.

use vstd::prelude::*;
use vstd::string::*;

use crate::connect::settings::{
    edited, local_profile_folder, profile_folder, ConnectSettings, Destination, SettingsEdit,
};
use crate::paths::PathStyle;
use crate::text::{same, shown};

verus! {

/// What Connect is doing.
#[derive(Clone, Copy, Debug, PartialEq, Eq, Structural)]
pub enum Notice {
    WaitingForPeer,
    NotEnabled,
    ConnectingDevices,
    ReceivingProfile,
    ReceivingCollection,
    SetUpThisDevice,
    UpToDate,
    ActionRequired,
}

impl Notice {
    pub open spec fn message(self) -> Seq<char> {
        match self {
            Notice::WaitingForPeer => "Waiting for a peer"@,
            Notice::NotEnabled => "Connect is not enabled"@,
            Notice::ConnectingDevices => "Connecting devices"@,
            Notice::ReceivingProfile => "Receiving profile"@,
            Notice::ReceivingCollection => "Receiving collection"@,
            Notice::SetUpThisDevice => "Set up this device"@,
            Notice::UpToDate => "Profile up to date"@,
            Notice::ActionRequired => "Action required"@,
        }
    }

    /// The message that is translated for the user.
    pub fn text(self) -> (result: &'static str)
        ensures
            result@ == self.message(),
    {
        match self {
            Notice::WaitingForPeer => "Waiting for a peer",
            Notice::NotEnabled => "Connect is not enabled",
            Notice::ConnectingDevices => "Connecting devices",
            Notice::ReceivingProfile => "Receiving profile",
            Notice::ReceivingCollection => "Receiving collection",
            Notice::SetUpThisDevice => "Set up this device",
            Notice::UpToDate => "Profile up to date",
            Notice::ActionRequired => "Action required",
        }
    }
}

/// How a device is reached.
pub enum Connection {
    Unknown,
    Waiting,
    LocalNetwork,
    ViaRelay,
    Direct,
    Other(String),
}

impl Connection {
    pub open spec fn message(&self) -> Seq<char> {
        match self {
            Connection::Unknown => ""@,
            Connection::Waiting => "Waiting for device"@,
            Connection::LocalNetwork => "Local network"@,
            Connection::ViaRelay => "Via relay"@,
            Connection::Direct => "Direct"@,
            Connection::Other(route) => route@,
        }
    }

    /// The message that is translated for the user, except for a route without a name of its own.
    pub fn text(&self) -> (result: &str)
        ensures
            result@ == self.message(),
    {
        match self {
            Connection::Unknown => "",
            Connection::Waiting => "Waiting for device",
            Connection::LocalNetwork => "Local network",
            Connection::ViaRelay => "Via relay",
            Connection::Direct => "Direct",
            Connection::Other(route) => route.as_str(),
        }
    }

    pub fn copy(&self) -> (result: Self)
        ensures
            result == *self,
    {
        match self {
            Connection::Unknown => Connection::Unknown,
            Connection::Waiting => Connection::Waiting,
            Connection::LocalNetwork => Connection::LocalNetwork,
            Connection::ViaRelay => Connection::ViaRelay,
            Connection::Direct => Connection::Direct,
            Connection::Other(route) => Connection::Other(route.clone()),
        }
    }
}

pub open spec fn label_of(route: String) -> Connection {
    if route@ == "Local network"@ {
        Connection::LocalNetwork
    } else if route@ == "Via relay"@ {
        Connection::ViaRelay
    } else if route@ == "Direct"@ {
        Connection::Direct
    } else {
        Connection::Other(route)
    }
}

pub fn connection_label(value: String) -> (result: Connection)
    ensures
        result == label_of(value),
        result.message() == value@,
{
    if same(&value, "Local network") {
        Connection::LocalNetwork
    } else if same(&value, "Via relay") {
        Connection::ViaRelay
    } else if same(&value, "Direct") {
        Connection::Direct
    } else {
        Connection::Other(value)
    }
}

/// A device of the profile, or one that was seen nearby.
pub struct Device {
    pub id: String,
    pub name: String,
    pub reachable: bool,
    pub has_playback: bool,
    pub queue_content_id: Option<String>,
    pub enrolled: bool,
    pub connection: Connection,
}

impl Device {
    /// A device about which only its name is known.
    pub open spec fn fresh_of(id: String, name: String, reachable: bool, enrolled: bool) -> Self {
        Device {
            id,
            name,
            reachable,
            has_playback: false,
            queue_content_id: None,
            enrolled,
            connection: Connection::Unknown,
        }
    }

    pub fn fresh(id: String, name: String, reachable: bool, enrolled: bool) -> (result: Self)
        ensures
            result == Self::fresh_of(id, name, reachable, enrolled),
    {
        Device {
            id,
            name,
            reachable,
            has_playback: false,
            queue_content_id: None,
            enrolled,
            connection: Connection::Unknown,
        }
    }

    pub fn copy(&self) -> (result: Self)
        ensures
            result == *self,
    {
        Device {
            id: self.id.clone(),
            name: self.name.clone(),
            reachable: self.reachable,
            has_playback: self.has_playback,
            queue_content_id: match &self.queue_content_id {
                Some(id) => Some(id.clone()),
                None => None,
            },
            enrolled: self.enrolled,
            connection: self.connection.copy(),
        }
    }

    /// The device plays something other than the given queue, and can hand it over.
    pub open spec fn offers(&self, local_queue: Seq<char>) -> bool {
        self.enrolled && self.reachable && self.has_playback && shown(self.queue_content_id)
            != Some(local_queue)
    }
}

/// A pairing in progress.
pub struct Pairing {
    pub session: String,
    pub peer: String,
    pub name: String,
    pub emoji: [String; 7],
    pub approved: bool,
    pub verified: bool,
}

/// What clients are shown.
pub struct Status {
    pub settings: ConnectSettings,
    pub local_folder: Option<String>,
    pub identity: Option<String>,
    pub invitation: Option<String>,
    pub devices: Vec<Device>,
    pub pairing: Option<Pairing>,
    pub connecting: bool,
    pub receiving_collection: bool,
    pub completed_pairings: u64,
    pub profile_status: Notice,
    pub media_status: Option<String>,
    pub error: Option<String>,
}

/// The first device with the given identity, from `from` on.
pub open spec fn device_at(devices: Seq<Device>, id: Seq<char>, from: int) -> Option<int>
    decreases devices.len() - from,
{
    if from < 0 || from >= devices.len() {
        None
    } else if devices[from].id@ == id {
        Some(from)
    } else {
        device_at(devices, id, from + 1)
    }
}

pub proof fn device_at_is_first(devices: Seq<Device>, id: Seq<char>, from: int)
    requires
        0 <= from,
    ensures
        match device_at(devices, id, from) {
            Some(i) => from <= i < devices.len() && devices[i].id@ == id && forall|j: int|
                from <= j < i ==> (#[trigger] devices[j]).id@ != id,
            None => forall|j: int| from <= j < devices.len() ==> (#[trigger] devices[j]).id@ != id,
        },
    decreases devices.len() - from,
{
    if from < devices.len() && devices[from].id@ != id {
        device_at_is_first(devices, id, from + 1);
    }
}

/// The devices with the first of the given identity replaced.
pub open spec fn device_changed(
    devices: Seq<Device>,
    id: Seq<char>,
    change: spec_fn(Device) -> Device,
) -> Seq<Device> {
    match device_at(devices, id, 0) {
        Some(i) => devices.update(i, change(devices[i])),
        None => devices,
    }
}

/// The devices but those of the given identity.
pub open spec fn without(devices: Seq<Device>, id: Seq<char>) -> Seq<Device>
    decreases devices.len(),
{
    if devices.len() == 0 {
        seq![]
    } else if devices.last().id@ == id {
        without(devices.drop_last(), id)
    } else {
        without(devices.drop_last(), id).push(devices.last())
    }
}

/// The enrolled devices, none of them within reach.
pub open spec fn offline(devices: Seq<Device>) -> Seq<Device>
    decreases devices.len(),
{
    if devices.len() == 0 {
        seq![]
    } else if devices.last().enrolled {
        offline(devices.drop_last()).push(
            Device {
                reachable: false,
                has_playback: false,
                connection: Connection::Unknown,
                ..devices.last()
            },
        )
    } else {
        offline(devices.drop_last())
    }
}

fn find_device(devices: &Vec<Device>, id: &str) -> (result: Option<usize>)
    ensures
        match result {
            Some(i) => device_at(devices@, id@, 0) == Some(i as int) && i < devices@.len(),
            None => device_at(devices@, id@, 0) is None,
        },
{
    let mut i: usize = 0;
    while i < devices.len()
        invariant
            i <= devices@.len(),
            device_at(devices@, id@, 0) == device_at(devices@, id@, i as int),
        decreases devices@.len() - i,
    {
        if same(devices[i].id.as_str(), id) {
            return Some(i);
        }
        i += 1;
    }
    None
}

fn drop_device(devices: &Vec<Device>, id: &str) -> (result: Vec<Device>)
    ensures
        result@ == without(devices@, id@),
{
    let mut result: Vec<Device> = Vec::new();
    let mut i: usize = 0;
    while i < devices.len()
        invariant
            i <= devices@.len(),
            result@ == without(devices@.take(i as int), id@),
        decreases devices@.len() - i,
    {
        assert(devices@.take(i + 1).drop_last() =~= devices@.take(i as int));
        assert(devices@.take(i + 1).last() == devices@[i as int]);
        if !same(devices[i].id.as_str(), id) {
            result.push(devices[i].copy());
        }
        i += 1;
    }
    assert(devices@.take(i as int) =~= devices@);
    result
}

fn take_offline(devices: &Vec<Device>) -> (result: Vec<Device>)
    ensures
        result@ == offline(devices@),
{
    let mut result: Vec<Device> = Vec::new();
    let mut i: usize = 0;
    while i < devices.len()
        invariant
            i <= devices@.len(),
            result@ == offline(devices@.take(i as int)),
        decreases devices@.len() - i,
    {
        assert(devices@.take(i + 1).drop_last() =~= devices@.take(i as int));
        assert(devices@.take(i + 1).last() == devices@[i as int]);
        if devices[i].enrolled {
            let mut device = devices[i].copy();
            device.reachable = false;
            device.has_playback = false;
            device.connection = Connection::Unknown;
            result.push(device);
        }
        i += 1;
    }
    assert(devices@.take(i as int) =~= devices@);
    result
}

/// Whether a pairing with the given session is shown.
pub open spec fn pairs_with(pairing: Option<Pairing>, session: Seq<char>) -> bool {
    pairing matches Some(pairing) && pairing.session@ == session
}

/// A device that did not answer.
pub open spec fn unreachable_of(device: Device) -> Device {
    Device { reachable: false, has_playback: false, connection: Connection::Waiting, ..device }
}

impl Status {
    pub open spec fn wf(&self) -> bool {
        self.settings.wf()
    }

    /// The state before Connect has started.
    pub fn initial(
        config: ConnectSettings,
        style: PathStyle,
        directory: &str,
        error: Option<String>,
    ) -> (result: Self)
        ensures
            result == (Status {
                settings: config,
                local_folder: result.local_folder,
                identity: None,
                invitation: None,
                devices: result.devices,
                pairing: None,
                connecting: false,
                receiving_collection: false,
                completed_pairings: 0,
                profile_status: if config.enabled {
                    Notice::WaitingForPeer
                } else {
                    Notice::NotEnabled
                },
                media_status: None,
                error,
            }),
            result.devices@.len() == 0,
            shown(result.local_folder) == folder_of(style, directory@, config.profile),
    {
        let profile_status = if config.enabled {
            Notice::WaitingForPeer
        } else {
            Notice::NotEnabled
        };
        let local_folder = profile_folder_of(style, directory, &config.profile);
        Status {
            settings: config,
            local_folder,
            identity: None,
            invitation: None,
            devices: Vec::new(),
            pairing: None,
            connecting: false,
            receiving_collection: false,
            completed_pairings: 0,
            profile_status,
            media_status: None,
            error,
        }
    }

    /// The place that is shown for the files of a profile: in a source, or on this device.
    pub open spec fn storage(&self, source: Option<Seq<char>>) -> Seq<char> {
        match (source, self.settings.destination) {
            (None, Some(Destination::Local { path })) => path@,
            (Some(selected), Some(Destination::Remote { source_id, path })) => if selected
                == source_id@ {
                path@
            } else {
                "Rufin Connect"@
            },
            (Some(_), _) => "Rufin Connect"@,
            (None, _) => match self.local_folder {
                Some(folder) => folder@,
                None => ""@,
            },
        }
    }

    pub fn storage_path(&self, source: Option<&str>) -> (result: String)
        ensures
            result@ == self.storage(
                match source {
                    Some(source) => Some(source@),
                    None => None,
                },
            ),
    {
        match source {
            Some(selected) => match &self.settings.destination {
                Some(Destination::Remote { source_id, path }) => if same(selected, source_id) {
                    path.clone()
                } else {
                    "Rufin Connect".to_owned()
                },
                _ => "Rufin Connect".to_owned(),
            },
            None => match &self.settings.destination {
                Some(Destination::Local { path }) => path.clone(),
                _ => match &self.local_folder {
                    Some(folder) => folder.clone(),
                    None => "".to_owned(),
                },
            },
        }
    }

    /// An edit of the settings was stored.
    pub fn saved(&mut self, edit: SettingsEdit, style: PathStyle, directory: &str)
        requires
            old(self).wf(),
        ensures
            final(self).wf(),
            edited(style, old(self).settings, edit, directory@, final(self).settings),
            shown(final(self).local_folder) == folder_of(
                style,
                directory@,
                final(self).settings.profile,
            ),
            *final(self) == (Status {
                settings: final(self).settings,
                local_folder: final(self).local_folder,
                ..*old(self)
            }),
    {
        self.settings.apply(edit, style, directory);
        self.local_folder = profile_folder_of(style, directory, &self.settings.profile);
    }

    pub fn failed(&mut self, error: String)
        ensures
            *final(self) == (Status {
                error: Some(error),
                profile_status: Notice::ActionRequired,
                ..*old(self)
            }),
    {
        self.error = Some(error);
        self.profile_status = Notice::ActionRequired;
    }

    pub fn clear_error(&mut self)
        ensures
            *final(self) == (Status { error: None, ..*old(self) }),
    {
        self.error = None;
    }

    /// A join has begun.
    pub fn begin_joining(&mut self)
        ensures
            *final(self) == (Status {
                connecting: true,
                receiving_collection: false,
                error: None,
                profile_status: Notice::ConnectingDevices,
                ..*old(self)
            }),
    {
        self.connecting = true;
        self.receiving_collection = false;
        self.error = None;
        self.profile_status = Notice::ConnectingDevices;
    }

    pub fn end_pairing(&mut self)
        ensures
            *final(self) == (Status { pairing: None, connecting: false, ..*old(self) }),
    {
        self.pairing = None;
        self.connecting = false;
    }

    /// Taking over a profile failed.
    pub fn end_adoption(&mut self)
        ensures
            *final(self) == (Status {
                pairing: None,
                connecting: false,
                receiving_collection: false,
                ..*old(self)
            }),
    {
        self.pairing = None;
        self.connecting = false;
        self.receiving_collection = false;
    }

    /// Connect was switched off. Enrolled devices stay in the list, out of reach.
    pub fn disabled(&mut self)
        ensures
            final(self).devices@ == offline(old(self).devices@),
            *final(self) == (Status {
                devices: final(self).devices,
                pairing: None,
                connecting: false,
                receiving_collection: false,
                invitation: None,
                profile_status: Notice::NotEnabled,
                ..*old(self)
            }),
    {
        self.devices = take_offline(&self.devices);
        self.pairing = None;
        self.connecting = false;
        self.receiving_collection = false;
        self.invitation = None;
        self.profile_status = Notice::NotEnabled;
    }

    /// The device left its profile.
    pub fn left(&mut self)
        ensures
            final(self).devices@.len() == 0,
            *final(self) == (Status {
                devices: final(self).devices,
                pairing: None,
                connecting: false,
                receiving_collection: false,
                invitation: None,
                identity: None,
                profile_status: Notice::NotEnabled,
                ..*old(self)
            }),
    {
        self.devices.clear();
        self.pairing = None;
        self.connecting = false;
        self.receiving_collection = false;
        self.invitation = None;
        self.identity = None;
        self.profile_status = Notice::NotEnabled;
    }

    /// The network is up.
    pub fn network_opened(&mut self, identity: String, invitation: String)
        ensures
            *final(self) == (Status {
                identity: Some(identity),
                invitation: Some(invitation),
                profile_status: if old(self).connecting {
                    old(self).profile_status
                } else {
                    Notice::WaitingForPeer
                },
                ..*old(self)
            }),
    {
        self.identity = Some(identity);
        self.invitation = Some(invitation);
        if !self.connecting {
            self.profile_status = Notice::WaitingForPeer;
        }
    }

    pub fn identified(&mut self, identity: String)
        ensures
            *final(self) == (Status { identity: Some(identity), ..*old(self) }),
    {
        self.identity = Some(identity);
    }

    pub fn await_setup(&mut self)
        ensures
            *final(self) == (Status { profile_status: Notice::SetUpThisDevice, ..*old(self) }),
    {
        self.profile_status = Notice::SetUpThisDevice;
    }

    /// The user answered the pairing of a session.
    pub fn pairing_answered(&mut self, session: &str, approve: bool)
        ensures
            *final(self) == (Status {
                pairing: if pairs_with(old(self).pairing, session@) {
                    Some(Pairing { approved: approve, ..old(self).pairing->0 })
                } else {
                    old(self).pairing
                },
                ..*old(self)
            }),
    {
        if let Some(pairing) = &mut self.pairing {
            if same(pairing.session.as_str(), session) {
                pairing.approved = approve;
            }
        }
    }

    /// The other device agreed to the pairing of a session.
    pub fn pairing_verified(&mut self, session: &str)
        ensures
            *final(self) == (Status {
                pairing: if pairs_with(old(self).pairing, session@) {
                    Some(Pairing { approved: true, verified: true, ..old(self).pairing->0 })
                } else {
                    old(self).pairing
                },
                ..*old(self)
            }),
    {
        if let Some(pairing) = &mut self.pairing {
            if same(pairing.session.as_str(), session) {
                pairing.approved = true;
                pairing.verified = true;
            }
        }
    }

    /// Whether a pairing with the session is shown.
    pub fn is_pairing(&self, session: &str) -> (result: bool)
        ensures
            result == pairs_with(self.pairing, session@),
    {
        match &self.pairing {
            Some(pairing) => same(pairing.session.as_str(), session),
            None => false,
        }
    }

    pub fn is_approved(&self, session: &str) -> (result: bool)
        ensures
            result == (pairs_with(self.pairing, session@) && self.pairing->0.approved),
    {
        match &self.pairing {
            Some(pairing) => same(pairing.session.as_str(), session) && pairing.approved,
            None => false,
        }
    }

    /// The user finished setting the device up.
    pub fn setup_finished(&mut self)
        requires
            old(self).completed_pairings < u64::MAX,
        ensures
            *final(self) == (Status {
                completed_pairings: (old(self).completed_pairings + 1) as u64,
                receiving_collection: true,
                profile_status: Notice::ReceivingCollection,
                ..*old(self)
            }),
    {
        self.completed_pairings += 1;
        self.receiving_collection = true;
        self.profile_status = Notice::ReceivingCollection;
    }

    /// A connection was tried: the route it took, or none.
    pub fn connection_tested(&mut self, peer: &str, route: Option<String>)
        ensures
            final(self).devices@ == device_changed(
                old(self).devices@,
                peer@,
                |device: Device|
                    match route {
                        Some(route) => Device {
                            reachable: true,
                            connection: label_of(route),
                            ..device
                        },
                        None => unreachable_of(device),
                    },
            ),
            *final(self) == (Status { devices: final(self).devices, ..*old(self) }),
    {
        if let Some(i) = find_device(&self.devices, peer) {
            match route {
                Some(route) => {
                    self.devices[i].reachable = true;
                    self.devices[i].connection = connection_label(route);
                },
                None => {
                    self.devices[i].reachable = false;
                    self.devices[i].has_playback = false;
                    self.devices[i].connection = Connection::Waiting;
                },
            }
        }
    }

    /// Whether the device was within reach until now.
    pub open spec fn loses(&self, peer: Seq<char>) -> bool {
        device_at(self.devices@, peer, 0) matches Some(i) && self.devices@[i].reachable
    }

    /// A device does not answer any more. Tells whether that is news.
    pub fn device_lost(&mut self, peer: &str) -> (changed: bool)
        ensures
            changed == old(self).loses(peer@),
            final(self).devices@ == if changed {
                device_changed(old(self).devices@, peer@, |device: Device| unreachable_of(device))
            } else {
                old(self).devices@
            },
            *final(self) == (Status { devices: final(self).devices, ..*old(self) }),
    {
        match find_device(&self.devices, peer) {
            Some(i) => {
                if !self.devices[i].reachable {
                    return false;
                }
                self.devices[i].reachable = false;
                self.devices[i].has_playback = false;
                self.devices[i].connection = Connection::Waiting;
                true
            },
            None => false,
        }
    }

    /// A device of the profile has a new name. Tells whether that is news.
    pub fn device_renamed(&mut self, peer: &str, name: String) -> (changed: bool)
        ensures
            changed == (device_at(old(self).devices@, peer@, 0) matches Some(i) && old(self).devices@[i].name@ != name@),
            final(self).devices@ == if changed {
                device_changed(old(self).devices@, peer@, |device: Device| Device { name, ..device })
            } else {
                old(self).devices@
            },
            *final(self) == (Status { devices: final(self).devices, ..*old(self) }),
    {
        match find_device(&self.devices, peer) {
            Some(i) => {
                if same(self.devices[i].name.as_str(), name.as_str()) {
                    return false;
                }
                self.devices[i].name = name;
                true
            },
            None => false,
        }
    }

    /// A device became a member of the profile.
    pub fn device_enrolled(&mut self, peer: String, name: String)
        ensures
            final(self).devices@ == without(old(self).devices@, peer@).push(
                Device::fresh_of(peer, name, true, true),
            ),
            *final(self) == (Status { devices: final(self).devices, ..*old(self) }),
    {
        self.devices = drop_device(&self.devices, peer.as_str());
        self.devices.push(Device::fresh(peer, name, true, true));
    }

    /// A device was seen nearby; one that is in the list already stays as it is.
    pub fn device_discovered(&mut self, peer: String, name: String)
        ensures
            final(self).devices@ == if device_at(old(self).devices@, peer@, 0) is None {
                old(self).devices@.push(Device::fresh_of(peer, name, true, false))
            } else {
                old(self).devices@
            },
            *final(self) == (Status { devices: final(self).devices, ..*old(self) }),
    {
        if find_device(&self.devices, peer.as_str()).is_none() {
            self.devices.push(Device::fresh(peer, name, true, false));
        }
    }

    /// The known state of a device.
    pub fn device(&self, id: &str) -> (result: Option<Device>)
        ensures
            match result {
                Some(device) => device_at(self.devices@, id@, 0) matches Some(i) && device
                    == self.devices@[i],
                None => device_at(self.devices@, id@, 0) is None,
            },
    {
        match find_device(&self.devices, id) {
            Some(i) => Some(self.devices[i].copy()),
            None => None,
        }
    }

    /// The members were asked for their state; the answer counts only while Connect is on.
    pub fn devices_refreshed(&mut self, devices: Vec<Device>)
        ensures
            *final(self) == if old(self).settings.enabled {
                (Status { devices, ..*old(self) })
            } else {
                *old(self)
            },
    {
        if self.settings.enabled {
            self.devices = devices;
        }
    }

    /// The first device whose playback can be continued here.
    pub fn continuation_offer(&self, local_queue: &str) -> (result: Option<Device>)
        ensures
            match result {
                Some(device) => exists|i: int|
                    0 <= i < self.devices@.len() && device == self.devices@[i]
                        && #[trigger] self.devices@[i].offers(local_queue@) && forall|j: int|
                        0 <= j < i ==> !#[trigger] self.devices@[j].offers(local_queue@),
                None => forall|j: int|
                    0 <= j < self.devices@.len() ==> !#[trigger] self.devices@[j].offers(
                        local_queue@,
                    ),
            },
    {
        let mut i: usize = 0;
        while i < self.devices.len()
            invariant
                i <= self.devices@.len(),
                forall|j: int| 0 <= j < i ==> !#[trigger] self.devices@[j].offers(local_queue@),
            decreases self.devices@.len() - i,
        {
            let device = &self.devices[i];
            let own: bool = match &device.queue_content_id {
                Some(id) => same(id.as_str(), local_queue),
                None => false,
            };
            if device.enrolled && device.reachable && device.has_playback && !own {
                assert(self.devices@[i as int].offers(local_queue@));
                return Some(device.copy());
            }
            i += 1;
        }
        None
    }

    /// Everything that was received is in place. Tells whether that is news.
    pub fn settled(&mut self) -> (changed: bool)
        ensures
            ({
                let message = if old(self).settings.enabled {
                    Notice::UpToDate
                } else {
                    Notice::NotEnabled
                };
                &&& changed == (old(self).receiving_collection || (old(self).error is None && old(self).profile_status != message))
                &&& *final(self) == (Status {
                    receiving_collection: false,
                    profile_status: if old(self).error is None {
                        message
                    } else {
                        old(self).profile_status
                    },
                    ..*old(self)
                })
            }),
    {
        let changed = self.receiving_collection;
        self.receiving_collection = false;
        let message = if self.settings.enabled {
            Notice::UpToDate
        } else {
            Notice::NotEnabled
        };
        if self.error.is_none() && self.profile_status != message {
            self.profile_status = message;
            return true;
        }
        changed
    }

    /// Records of the profile are coming in. Tells whether that is news.
    pub fn receiving(&mut self) -> (changed: bool)
        ensures
            ({
                let message = if old(self).connecting {
                    Notice::ReceivingProfile
                } else {
                    Notice::ReceivingCollection
                };
                &&& changed == (!old(self).receiving_collection || old(self).profile_status
                    != message)
                &&& *final(self) == (Status {
                    receiving_collection: true,
                    profile_status: message,
                    ..*old(self)
                })
            }),
    {
        let message = if self.connecting {
            Notice::ReceivingProfile
        } else {
            Notice::ReceivingCollection
        };
        let changed = !self.receiving_collection || message != self.profile_status;
        self.receiving_collection = true;
        self.profile_status = message;
        changed
    }

    /// A profile was taken over from a device.
    pub fn adopted(&mut self, peer: String, name: String)
        ensures
            final(self).devices@ == without(old(self).devices@, peer@).push(
                Device::fresh_of(peer, name, true, true),
            ),
            *final(self) == (Status {
                devices: final(self).devices,
                error: None,
                pairing: None,
                connecting: false,
                receiving_collection: false,
                profile_status: Notice::SetUpThisDevice,
                ..*old(self)
            }),
    {
        self.error = None;
        self.end_adoption();
        self.device_enrolled(peer, name);
        self.profile_status = Notice::SetUpThisDevice;
    }
}

/// The folder of a profile, where there is one.
pub open spec fn folder_of(style: PathStyle, directory: Seq<char>, profile: Option<String>) -> Option<
    Seq<char>,
> {
    match profile {
        Some(profile) => Some(profile_folder(style, directory, profile@)),
        None => None,
    }
}

fn profile_folder_of(style: PathStyle, directory: &str, profile: &Option<String>) -> (result: Option<
    String,
>)
    ensures
        shown(result) == folder_of(style, directory@, *profile),
{
    match profile {
        Some(profile) => Some(local_profile_folder(style, directory, profile.as_str())),
        None => None,
    }
}

/// Switching Connect off keeps exactly the enrolled devices, in their order, with their names,
/// and leaves none within reach.
pub proof fn offline_keeps_the_enrolled(devices: Seq<Device>)
    ensures
        offline(devices).map_values(|device: Device| (device.id, device.name)) == devices.filter(
            |device: Device| device.enrolled,
        ).map_values(|device: Device| (device.id, device.name)),
        forall|i: int|
            0 <= i < offline(devices).len() ==> (#[trigger] offline(devices)[i]).enrolled
                && !offline(devices)[i].reachable && !offline(devices)[i].has_playback,
    decreases devices.len(),
{
    let enrolled = |device: Device| device.enrolled;
    let names = |device: Device| (device.id, device.name);
    reveal(Seq::filter);
    if devices.len() > 0 {
        let init = devices.drop_last();
        offline_keeps_the_enrolled(init);
        assert(offline(devices).map_values(names) =~= devices.filter(enrolled).map_values(names)) by {
            if devices.last().enrolled {
                let changed = Device {
                    reachable: false,
                    has_playback: false,
                    connection: Connection::Unknown,
                    ..devices.last()
                };
                assert(offline(devices) == offline(init).push(changed));
                assert(devices.filter(enrolled) == init.filter(enrolled).push(devices.last()));
                assert(offline(init).push(changed).map_values(names) =~= offline(init).map_values(
                    names,
                ).push(names(changed)));
                assert(init.filter(enrolled).push(devices.last()).map_values(names)
                    =~= init.filter(enrolled).map_values(names).push(names(devices.last())));
            }
        }
    } else {
        assert(offline(devices).map_values(names) =~= devices.filter(enrolled).map_values(names));
    }
}

/// A device that was taken out is gone, and the others stay in their order.
pub proof fn without_drops_only_one(devices: Seq<Device>, id: Seq<char>)
    ensures
        without(devices, id) == devices.filter(|device: Device| device.id@ != id),
        forall|i: int| 0 <= i < without(devices, id).len() ==> (#[trigger] without(devices, id)[i]).id@ != id,
    decreases devices.len(),
{
    reveal(Seq::filter);
    if devices.len() > 0 {
        without_drops_only_one(devices.drop_last(), id);
    }
    assert(without(devices, id) =~= devices.filter(|device: Device| device.id@ != id));
}

/// A device offers its playback exactly where it is one of the profile, within reach, plays something,
/// and that is not what is played here.
pub proof fn only_other_playback_is_offered(device: Device, local_queue: Seq<char>)
    ensures
        device.offers(local_queue) ==> device.enrolled && device.reachable && device.has_playback && (
        device.queue_content_id matches Some(id) ==> id@ != local_queue),
        device.enrolled && device.reachable && device.has_playback && (
        device.queue_content_id matches Some(id) ==> id@ != local_queue) ==> device.offers(
            local_queue,
        ),
        !unreachable_of(device).offers(local_queue),
        unreachable_of(device).id == device.id && unreachable_of(device).name == device.name
            && unreachable_of(device).enrolled == device.enrolled,
{
}

/// The place that is shown for a profile's files is the one that is kept, where it is of the kind that
/// is asked about: the folder of this device, or the path in that source.
pub proof fn shown_places_are_those_that_are_kept(status: Status, source: Seq<char>)
    ensures
        status.settings.destination matches Some(Destination::Local { path }) ==> status.storage(None)
            == path@,
        status.settings.destination matches Some(Destination::Remote { source_id, path }) ==> (source
            == source_id@ ==> status.storage(Some(source)) == path@),
        !(status.settings.destination matches Some(Destination::Local { .. })) ==> (
        status.local_folder matches Some(folder) ==> status.storage(None) == folder@),
{
}

} // verus!
