//! What a device keeps on disk about Connect, and the edits that are made to it.

use vstd::prelude::*;
use vstd::string::*;

use crate::digest::{blake3_hash, hash, hex, hex_text};
use crate::paths::{hex_goes_below, PathStyle};
use crate::text::{joined, same};
use crate::textmap::TextMap;

verus! {

/// How media is stored when it comes from another device.
#[derive(Clone, Copy, Debug, PartialEq, Eq, Structural)]
pub enum Encoding {
    Original,
    Mp3,
}

impl Default for Encoding {
    fn default() -> (result: Self)
        ensures
            result == Encoding::Original,
    {
        Encoding::Original
    }
}

/// Where profile files are exchanged.
pub enum Destination {
    Local { path: String },
    Remote { source_id: String, path: String },
}

impl Destination {
    pub open spec fn remote(&self) -> bool {
        self is Remote
    }

    /// A local destination without a path, which stands for none.
    pub open spec fn blank(&self) -> bool {
        match self {
            Destination::Local { path } => path@.len() == 0,
            Destination::Remote { .. } => false,
        }
    }

    pub fn is_remote(&self) -> (result: bool)
        ensures
            result == self.remote(),
    {
        match self {
            Destination::Remote { .. } => true,
            Destination::Local { .. } => false,
        }
    }

    /// The source that holds the files of a remote destination.
    pub fn source_id(&self) -> (result: Option<&str>)
        ensures
            match self {
                Destination::Remote { source_id, .. } => result matches Some(id) && id@
                    == source_id@,
                Destination::Local { .. } => result is None,
            },
    {
        match self {
            Destination::Remote { source_id, .. } => Some(source_id.as_str()),
            Destination::Local { .. } => None,
        }
    }

    pub fn is_blank(&self) -> (result: bool)
        ensures
            result == self.blank(),
    {
        match self {
            Destination::Local { path } => path.as_str().is_empty(),
            Destination::Remote { .. } => false,
        }
    }

    pub fn copy(&self) -> (result: Self)
        ensures
            result == *self,
    {
        match self {
            Destination::Local { path } => Destination::Local { path: path.clone() },
            Destination::Remote { source_id, path } => Destination::Remote {
                source_id: source_id.clone(),
                path: path.clone(),
            },
        }
    }

    /// The two name the same place.
    pub open spec fn same_place(style: PathStyle, a: Self, b: Self) -> bool {
        match (a, b) {
            (Destination::Local { path: x }, Destination::Local { path: y }) => style.same_path(
                x@,
                y@,
            ),
            (
                Destination::Remote { source_id: s, path: x },
                Destination::Remote { source_id: t, path: y },
            ) => s@ == t@ && x@ == y@,
            _ => false,
        }
    }

    pub fn matches(&self, style: PathStyle, other: &Self) -> (result: bool)
        ensures
            result == Self::same_place(style, *self, *other),
    {
        match (self, other) {
            (Destination::Local { path: x }, Destination::Local { path: y }) => style.is_same(x, y),
            (
                Destination::Remote { source_id: s, path: x },
                Destination::Remote { source_id: t, path: y },
            ) => same(s, t) && same(x, y),
            _ => false,
        }
    }
}

pub fn copy_destination(destination: &Option<Destination>) -> (result: Option<Destination>)
    ensures
        result == *destination,
{
    match destination {
        Some(destination) => Some(destination.copy()),
        None => None,
    }
}

/// The folder below the Connect directory that holds a profile's files.
pub open spec fn profile_folder(style: PathStyle, directory: Seq<char>, profile: Seq<char>) -> Seq<
    char,
> {
    style.joined(directory, hex(blake3_hash(vstd::utf8::encode_utf8(profile))))
}

pub fn local_profile_folder(style: PathStyle, directory: &str, profile: &str) -> (result: String)
    ensures
        result@ == profile_folder(style, directory@, profile@),
{
    let digest = hash(profile.as_bytes());
    proof {
        hex_goes_below(style, blake3_hash(vstd::utf8::encode_utf8(profile@)));
    }
    style.join(directory, hex_text(&digest).as_str())
}

pub fn local_destination(style: PathStyle, directory: &str, profile: &str) -> (result: Destination)
    ensures
        result matches Destination::Local { path } && path@ == profile_folder(
            style,
            directory@,
            profile@,
        ),
{
    Destination::Local { path: local_profile_folder(style, directory, profile) }
}

/// The settings of this device.
pub struct ConnectSettings {
    pub enabled: bool,
    pub name: String,
    pub identity_ref: Option<String>,
    pub profile: Option<String>,
    pub file_profiles: Vec<String>,
    pub nearby: bool,
    pub relay: Option<String>,
    pub public_relay: bool,
    pub destination: Option<Destination>,
    pub folders: TextMap<String>,
    pub encoding: Encoding,
    pub adopting: bool,
    pub established: bool,
    pub setup_pending: bool,
    /// This device's received queue digest and its original player's identity.
    pub continued_queue: Option<(String, String)>,
}

impl Default for ConnectSettings {
    fn default() -> (result: Self)
        ensures
            result.wf(),
            !result.enabled,
            result.name@ == "Rufin"@,
            result.identity_ref is None,
            result.profile is None,
            result.file_profiles@.len() == 0,
            result.nearby,
            result.relay is None,
            !result.public_relay,
            result.destination is None,
            result.folders@ == Map::<Seq<char>, String>::empty(),
            result.encoding == Encoding::Original,
            !result.adopting,
            !result.established,
            !result.setup_pending,
            result.continued_queue is None,
    {
        ConnectSettings {
            enabled: false,
            name: "Rufin".to_owned(),
            identity_ref: None,
            profile: None,
            file_profiles: Vec::new(),
            nearby: true,
            relay: None,
            public_relay: false,
            destination: None,
            folders: TextMap::new(),
            encoding: Encoding::Original,
            adopting: false,
            established: false,
            setup_pending: false,
            continued_queue: None,
        }
    }
}

/// One change of the settings.
pub enum SettingsEdit {
    Enabled(bool),
    IdentityRef(String),
    FileProfile(String),
    Established,
    SetupPending(bool),
    Profile(String),
    Destination(Option<Destination>),
    /// The profile's own folder becomes the destination.
    OwnFolder(String),
    /// The profile's files are no longer exchanged through a source.
    RemoteForgotten(String),
    /// The device leaves its profile.
    Left,
    Name(String),
    Network { nearby: bool, relay: Option<String>, public_relay: bool },
    Relay(Option<String>),
    PublicRelay(bool),
    /// A folder for a source, or for one root of it; an empty path takes it away.
    Folder { source: String, root_id: Option<String>, path: String },
    Encoding(Encoding),
    /// The device starts to take over a profile; a local destination moves along.
    Adopting(String),
    Adopted,
    ContinuedQueue(Option<(String, String)>),
}

/// The destination is the profile's own folder.
pub open spec fn is_own_folder(
    style: PathStyle,
    destination: Option<Destination>,
    directory: Seq<char>,
    profile: Seq<char>,
) -> bool {
    destination matches Some(Destination::Local { path }) && path@ == profile_folder(
        style,
        directory,
        profile,
    )
}

/// The key under which a folder is kept.
pub open spec fn folder_key(source: Seq<char>, root_id: Option<String>) -> Seq<char> {
    match root_id {
        Some(root) => source + "/"@ + root@,
        None => source,
    }
}

/// The settings `after` are those `before` with the edit made.
pub open spec fn edited(
    style: PathStyle,
    before: ConnectSettings,
    edit: SettingsEdit,
    directory: Seq<char>,
    after: ConnectSettings,
) -> bool {
    match edit {
        SettingsEdit::Enabled(enabled) => after == (ConnectSettings { enabled, ..before }),
        SettingsEdit::IdentityRef(reference) => after == (ConnectSettings {
            identity_ref: Some(reference),
            ..before
        }),
        SettingsEdit::FileProfile(profile) => {
            &&& after == (ConnectSettings { file_profiles: after.file_profiles, ..before })
            &&& after.file_profiles@ == before.file_profiles@.push(profile)
        },
        SettingsEdit::Established => after == (ConnectSettings { established: true, ..before }),
        SettingsEdit::SetupPending(setup_pending) => after == (ConnectSettings {
            setup_pending,
            ..before
        }),
        SettingsEdit::Profile(profile) => after == (ConnectSettings {
            profile: Some(profile),
            ..before
        }),
        SettingsEdit::Destination(destination) => after == (ConnectSettings {
            destination,
            ..before
        }),
        SettingsEdit::OwnFolder(profile) => {
            &&& after == (ConnectSettings { destination: after.destination, ..before })
            &&& is_own_folder(style, after.destination, directory, profile@)
        },
        SettingsEdit::RemoteForgotten(profile) => {
            &&& after == (ConnectSettings { destination: after.destination, ..before })
            &&& if before.destination matches Some(destination) && destination.remote() {
                is_own_folder(style, after.destination, directory, profile@)
            } else {
                after.destination == before.destination
            }
        },
        SettingsEdit::Left => after == (ConnectSettings {
            enabled: false,
            profile: None,
            adopting: false,
            established: false,
            setup_pending: false,
            destination: None,
            ..before
        }),
        SettingsEdit::Name(name) => after == (ConnectSettings { name, ..before }),
        SettingsEdit::Network { nearby, relay, public_relay } => after == (ConnectSettings {
            nearby,
            relay,
            public_relay,
            ..before
        }),
        SettingsEdit::Relay(relay) => after == (ConnectSettings { relay, ..before }),
        SettingsEdit::PublicRelay(public_relay) => after == (ConnectSettings {
            public_relay,
            ..before
        }),
        SettingsEdit::Folder { source, root_id, path } => {
            &&& after == (ConnectSettings { folders: after.folders, ..before })
            &&& after.folders@ == if path@.len() == 0 {
                before.folders@.remove(folder_key(source@, root_id))
            } else {
                before.folders@.insert(folder_key(source@, root_id), path)
            }
        },
        SettingsEdit::Encoding(encoding) => after == (ConnectSettings { encoding, ..before }),
        SettingsEdit::Adopting(profile) => {
            &&& after == (ConnectSettings {
                profile: Some(profile),
                adopting: true,
                destination: after.destination,
                ..before
            })
            &&& if before.destination matches Some(destination) && !destination.remote() {
                is_own_folder(style, after.destination, directory, profile@)
            } else {
                after.destination == before.destination
            }
        },
        SettingsEdit::Adopted => after == (ConnectSettings {
            adopting: false,
            established: true,
            ..before
        }),
        SettingsEdit::ContinuedQueue(continued_queue) => after == (ConnectSettings {
            continued_queue,
            ..before
        }),
    }
}

impl ConnectSettings {
    pub open spec fn wf(&self) -> bool {
        self.folders.wf()
    }

    /// The settings of a device file. One written before Connect could be switched off says
    /// nothing of `enabled`: then a remembered profile means that it was on.
    pub fn from_device_file(has_enabled: bool, config: Self) -> (result: Self)
        ensures
            result == if has_enabled {
                config
            } else {
                (ConnectSettings { enabled: config.profile is Some, ..config })
            },
    {
        let mut config = config;
        if !has_enabled {
            config.enabled = config.profile.is_some();
        }
        config
    }

    pub fn apply(&mut self, edit: SettingsEdit, style: PathStyle, directory: &str)
        requires
            old(self).wf(),
        ensures
            final(self).wf(),
            edited(style, *old(self), edit, directory@, *final(self)),
    {
        match edit {
            SettingsEdit::Enabled(enabled) => {
                self.enabled = enabled;
            },
            SettingsEdit::IdentityRef(reference) => {
                self.identity_ref = Some(reference);
            },
            SettingsEdit::FileProfile(profile) => {
                self.file_profiles.push(profile);
            },
            SettingsEdit::Established => {
                self.established = true;
            },
            SettingsEdit::SetupPending(setup_pending) => {
                self.setup_pending = setup_pending;
            },
            SettingsEdit::Profile(profile) => {
                self.profile = Some(profile);
            },
            SettingsEdit::Destination(destination) => {
                self.destination = destination;
            },
            SettingsEdit::OwnFolder(profile) => {
                self.destination = Some(local_destination(style, directory, profile.as_str()));
            },
            SettingsEdit::RemoteForgotten(profile) => {
                let remote: bool = match &self.destination {
                    Some(destination) => destination.is_remote(),
                    None => false,
                };
                if remote {
                    self.destination = Some(local_destination(style, directory, profile.as_str()));
                }
            },
            SettingsEdit::Left => {
                self.enabled = false;
                self.profile = None;
                self.adopting = false;
                self.established = false;
                self.setup_pending = false;
                self.destination = None;
            },
            SettingsEdit::Name(name) => {
                self.name = name;
            },
            SettingsEdit::Network { nearby, relay, public_relay } => {
                self.nearby = nearby;
                self.relay = relay;
                self.public_relay = public_relay;
            },
            SettingsEdit::Relay(relay) => {
                self.relay = relay;
            },
            SettingsEdit::PublicRelay(public_relay) => {
                self.public_relay = public_relay;
            },
            SettingsEdit::Folder { source, root_id, path } => {
                let key = match root_id {
                    Some(root) => {
                        let mut key = joined(source.as_str(), "/");
                        key.append(root.as_str());
                        key
                    },
                    None => source,
                };
                if path.as_str().is_empty() {
                    let _ = self.folders.remove(key.as_str());
                } else {
                    self.folders.insert(key, path);
                }
            },
            SettingsEdit::Encoding(encoding) => {
                self.encoding = encoding;
            },
            SettingsEdit::Adopting(profile) => {
                let local: bool = match &self.destination {
                    Some(destination) => !destination.is_remote(),
                    None => false,
                };
                if local {
                    self.destination = Some(local_destination(style, directory, profile.as_str()));
                }
                self.profile = Some(profile);
                self.adopting = true;
            },
            SettingsEdit::Adopted => {
                self.adopting = false;
                self.established = true;
            },
            SettingsEdit::ContinuedQueue(continued_queue) => {
                self.continued_queue = continued_queue;
            },
        }
    }

    /// The profile is one whose file key this device holds.
    pub open spec fn knows_profile(&self, profile: Seq<char>) -> bool {
        exists|i: int| 0 <= i < self.file_profiles@.len() && #[trigger] self.file_profiles@[i]@
            == profile
    }

    pub fn has_file_profile(&self, profile: &str) -> (result: bool)
        ensures
            result == self.knows_profile(profile@),
    {
        let mut i: usize = 0;
        while i < self.file_profiles.len()
            invariant
                i <= self.file_profiles@.len(),
                forall|j: int| 0 <= j < i ==> #[trigger] self.file_profiles@[j]@ != profile@,
            decreases self.file_profiles@.len() - i,
        {
            if same(self.file_profiles[i].as_str(), profile) {
                return true;
            }
            i += 1;
        }
        false
    }

    /// The identity of this device's queue: a queue that came from another player keeps the
    /// identity that it had there.
    pub fn queue_content_id(&self, local: String) -> (result: String)
        ensures
            result@ == match self.continued_queue {
                Some((received, original)) => if received@ == local@ {
                    original@
                } else {
                    local@
                },
                None => local@,
            },
    {
        match &self.continued_queue {
            Some((received, original)) => if same(received, &local) {
                original.clone()
            } else {
                local
            },
            None => local,
        }
    }
}

/// The record of a queue that was continued here: none where it already has its own identity.
pub fn continued_queue(original: Option<String>, local: String) -> (result: Option<
    (String, String),
>)
    ensures
        result == match original {
            Some(original) => if original@ == local@ {
                None
            } else {
                Some((local, original))
            },
            None => None,
        },
{
    match original {
        Some(original) => if same(&original, &local) {
            None
        } else {
            Some((local, original))
        },
        None => None,
    }
}

/// A continued queue answers with the identity it had on the player it came from.
pub proof fn continued_queue_keeps_its_identity(
    style: PathStyle,
    before: ConnectSettings,
    after: ConnectSettings,
    directory: Seq<char>,
    original: String,
    local: String,
)
    requires
        edited(
            style,
            before,
            SettingsEdit::ContinuedQueue(
                if original@ == local@ {
                    None
                } else {
                    Some((local, original))
                },
            ),
            directory,
            after,
        ),
    ensures
        (match after.continued_queue {
            Some((received, original)) => if received@ == local@ {
                original@
            } else {
                local@
            },
            None => local@,
        }) == original@,
{
}

/// Other ways of reaching devices change neither the profile nor the identity of this one, nor
/// where its files are.
pub proof fn relay_changes_keep_the_profile(
    style: PathStyle,
    before: ConnectSettings,
    after: ConnectSettings,
    directory: Seq<char>,
    nearby: bool,
    relay: Option<String>,
    public_relay: bool,
)
    requires
        edited(style, before, (SettingsEdit::Network { nearby, relay, public_relay }), directory, after),
    ensures
        after.profile == before.profile,
        after.identity_ref == before.identity_ref,
        after.file_profiles == before.file_profiles,
        after.destination == before.destination,
        after.folders == before.folders,
        after.enabled == before.enabled,
{
}

} // verus!
