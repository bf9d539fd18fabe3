//! The life of an open profile: starting, synchronizing, and answering other devices.

use vstd::prelude::*;

use crate::connect::actions::Control;
use crate::connect::owner::{Owner, Refusal, Session};
use crate::connect::settings::{copy_destination, Destination, Encoding, SettingsEdit};
use crate::connect::status::{
    label_of, unreachable_of, connection_label, Connection, Device, Notice, Status,
};
use crate::paths::PathStyle;
use crate::text::{same, shown};
use crate::textmap::TextMap;

verus! {

/// What is opened when the player starts.
pub enum Startup {
    OpenProfile { profile: String },
    OpenNetwork,
    Nothing,
}

impl Owner {
    /// What is opened first: the remembered profile, or the network alone.
    pub fn start(&self) -> (result: Startup)
        ensures
            result == if self.joining || self.session is Some {
                Startup::Nothing
            } else {
                match self.status.settings.profile {
                    Some(profile) => Startup::OpenProfile { profile },
                    None => if self.status.settings.enabled {
                        Startup::OpenNetwork
                    } else {
                        Startup::Nothing
                    },
                }
            },
    {
        if self.joining || self.session.is_some() {
            return Startup::Nothing;
        }
        match &self.status.settings.profile {
            Some(profile) => Startup::OpenProfile { profile: profile.clone() },
            None => if self.status.settings.enabled {
                Startup::OpenNetwork
            } else {
                Startup::Nothing
            },
        }
    }

    /// Whether taking over a profile was cut short and is finished now.
    pub fn resumes_adoption(&self) -> (result: bool)
        ensures
            result == (!self.joining && self.session is Some && self.status.settings.adopting),
    {
        !self.joining && self.session.is_some() && self.status.settings.adopting
    }

    /// Whether the sources are announced at the start.
    pub fn announces_sources(&self, library_selected: bool) -> (result: bool)
        ensures
            result == (self.session is Some && !self.status.settings.setup_pending
                && !library_selected),
    {
        self.session.is_some() && !self.status.settings.setup_pending && !library_selected
    }

    /// Whether the regular work is done in this round.
    pub fn works(&self) -> (result: bool)
        ensures
            result == (self.session is Some && !self.status.settings.setup_pending),
    {
        self.session.is_some() && !self.status.settings.setup_pending
    }

    /// Whether the collection is written to the profile in this round.
    pub fn seeds(&self) -> (result: bool)
        ensures
            result == (!self.joining && !self.status.settings.adopting),
    {
        !self.joining && !self.status.settings.adopting
    }

    pub open spec fn at_rest(&self) -> bool {
        !self.status.settings.adopting && !self.status.settings.setup_pending && !self.joining
    }

    /// Whether the profile is synchronized: not while it is being taken over or set up.
    pub fn synchronizes(&self) -> (result: bool)
        ensures
            result == (self.at_rest() && self.session is Some),
    {
        !self.status.settings.adopting && !self.status.settings.setup_pending && !self.joining
            && self.session.is_some()
    }

    /// Whether profile files are exchanged; without an open profile that is refused.
    pub fn exchanges(&self) -> (result: Result<bool, Refusal>)
        ensures
            result == if !self.at_rest() {
                Ok::<bool, Refusal>(false)
            } else if self.session is None {
                Err(Refusal::NoProfile)
            } else {
                Ok(true)
            },
    {
        if self.status.settings.adopting || self.status.settings.setup_pending || self.joining {
            return Ok(false);
        }
        if self.session.is_none() {
            return Err(Refusal::NoProfile);
        }
        Ok(true)
    }

    /// Whether the devices are asked for their state.
    pub fn refreshes_devices(&self) -> (result: Result<bool, Refusal>)
        ensures
            result == if self.joining {
                Ok::<bool, Refusal>(false)
            } else if self.session is None {
                Err(Refusal::NoProfile)
            } else {
                Ok(self.network_open)
            },
    {
        if self.joining {
            return Ok(false);
        }
        if self.session.is_none() {
            return Err(Refusal::NoProfile);
        }
        Ok(self.network_open)
    }

    /// Notes what one round of projection brought. Says whether the sources and their media are
    /// announced: at once when sources changed, else when nothing more is pending.
    pub fn projected(&mut self, changed: bool, sources_changed: bool, pending: bool) -> (announce:
        bool)
        ensures
            old(self).session is None ==> !announce && *final(self) == *old(self),
            old(self).session is Some ==> ({
                let dirty = old(self).session->0.catalog_changed || changed;
                &&& announce == ((sources_changed || !pending) && (dirty || sources_changed))
                &&& *final(self) == (Owner {
                    session: Some(Session { catalog_changed: dirty, ..old(self).session->0 }),
                    ..*old(self)
                })
            }),
    {
        match &mut self.session {
            Some(session) => {
                if changed {
                    session.catalog_changed = true;
                }
                (sources_changed || !pending) && (session.catalog_changed || sources_changed)
            },
            None => false,
        }
    }

    /// The sources were announced.
    pub fn announced(&mut self)
        ensures
            *final(self) == (Owner {
                session: match old(self).session {
                    Some(session) => Some(Session { catalog_changed: false, ..session }),
                    None => None,
                },
                ..*old(self)
            }),
    {
        if let Some(session) = &mut self.session {
            session.catalog_changed = false;
        }
    }

    /// Ends a round of projection: once nothing is on its way any more, that is shown. Says
    /// whether clients are told.
    pub fn settle(&mut self, pending: bool) -> (changed: bool)
        requires
            old(self).wf(),
        ensures
            final(self).session == old(self).session,
            final(self).joining == old(self).joining,
            final(self).network_open == old(self).network_open,
            ({
                let quiet = old(self).session matches Some(session) && session.receiving@.dom().len()
                    == 0 && !pending && !old(self).status.connecting;
                let message = if old(self).status.settings.enabled {
                    Notice::UpToDate
                } else {
                    Notice::NotEnabled
                };
                &&& !quiet ==> !changed && final(self).status == old(self).status
                &&& quiet ==> changed == (old(self).status.receiving_collection || (old(self).status.error is None && old(self).status.profile_status != message))
                &&& quiet ==> final(self).status == (Status {
                    receiving_collection: false,
                    profile_status: if old(self).status.error is None {
                        message
                    } else {
                        old(self).status.profile_status
                    },
                    ..old(self).status
                })
            }),
    {
        let quiet: bool = match &self.session {
            Some(session) => session.receiving.len() == 0 && !pending && !self.status.connecting,
            None => false,
        };
        if quiet {
            self.status.settled()
        } else {
            false
        }
    }

    /// Whether a request of a peer is answered.
    pub open spec fn answer_refusal(
        &self,
        profile: Seq<char>,
        peer: Seq<char>,
        members: Seq<String>,
    ) -> Option<Refusal> {
        if self.session is None {
            Some(Refusal::NoProfile)
        } else if !self.network_open {
            Some(Refusal::Disabled)
        } else if self.session->0.profile@ != profile || self.joining || !has_text(members, peer) {
            Some(Refusal::NotAMember)
        } else {
            None
        }
    }

    /// Only members of the open profile are answered, and none while another is taken over.
    pub fn admits(&self, profile: &str, peer: &str, members: &Vec<String>) -> (result: Result<
        (),
        Refusal,
    >)
        ensures
            result == match self.answer_refusal(profile@, peer@, members@) {
                Some(reason) => Err::<(), Refusal>(reason),
                None => Ok(()),
            },
    {
        match &self.session {
            None => Err(Refusal::NoProfile),
            Some(session) => {
                if !self.network_open {
                    return Err(Refusal::Disabled);
                }
                if !same(session.profile.as_str(), profile) || self.joining || !list_has(
                    members,
                    peer,
                ) {
                    return Err(Refusal::NotAMember);
                }
                Ok(())
            },
        }
    }
}

/// Whoever is answered is a member of the open profile and asks for that profile, and nobody is
/// answered while this device takes over another.
pub proof fn only_members_are_answered(
    owner: Owner,
    profile: Seq<char>,
    peer: Seq<char>,
    members: Seq<String>,
)
    requires
        owner.answer_refusal(profile, peer, members) is None,
    ensures
        has_text(members, peer),
        owner.session matches Some(session) && session.profile@ == profile,
        !owner.joining,
        owner.network_open,
{
}

/// Whether another device has joined the profile: then its setup is complete.
pub fn is_shared(members: &Vec<String>) -> (result: bool)
    ensures
        result == (members@.len() > 1),
{
    members.len() > 1
}

/// A text is one of the list.
pub open spec fn has_text(list: Seq<String>, text: Seq<char>) -> bool {
    exists|i: int| 0 <= i < list.len() && #[trigger] list[i]@ == text
}

pub fn list_has(list: &Vec<String>, text: &str) -> (result: bool)
    ensures
        result == has_text(list@, text@),
{
    let mut i: usize = 0;
    while i < list.len()
        invariant
            i <= list@.len(),
            forall|j: int| 0 <= j < i ==> #[trigger] list@[j]@ != text@,
        decreases list@.len() - i,
    {
        if same(list[i].as_str(), text) {
            return true;
        }
        i += 1;
    }
    false
}

/// A source by its identity and kind.
pub struct SourceKind {
    pub id: String,
    pub kind: String,
}

/// Whether a source has folders of its own to be matched with folders of this device: only local
/// ones have.
pub fn has_roots(sources: &Vec<SourceKind>, source: &str) -> (result: bool)
    ensures
        result == exists|i: int|
            0 <= i < sources@.len() && (#[trigger] sources@[i]).id@ == source@ && sources@[i].kind@
                == "local"@,
{
    let mut i: usize = 0;
    while i < sources.len()
        invariant
            i <= sources@.len(),
            forall|j: int|
                0 <= j < i ==> !((#[trigger] sources@[j]).id@ == source@ && sources@[j].kind@
                    == "local"@),
        decreases sources@.len() - i,
    {
        if same(sources[i].id.as_str(), source) && same(sources[i].kind.as_str(), "local") {
            return true;
        }
        i += 1;
    }
    false
}

/// When profile files were last exchanged, and where.
pub struct ExchangeTimer {
    pub last: u64,
    pub destination: Option<Destination>,
}

pub open spec fn same_destination(style: PathStyle, a: Option<Destination>, b: Option<Destination>) -> bool {
    match (a, b) {
        (Some(a), Some(b)) => Destination::same_place(style, a, b),
        (None, None) => true,
        _ => false,
    }
}

impl ExchangeTimer {
    /// Whether an exchange is due: every minute, and whenever the destination changed. `now`
    /// counts milliseconds.
    pub fn due(&mut self, style: PathStyle, now: u64, current: &Option<Destination>) -> (result: bool)
        ensures
            result == (now - old(self).last >= 60000 || !same_destination(
                style,
                old(self).destination,
                *current,
            )),
            *final(self) == if result {
                (ExchangeTimer { last: now, destination: *current })
            } else {
                *old(self)
            },
    {
        let elapsed: u64 = now.saturating_sub(self.last);
        let moved: bool = match (&self.destination, current) {
            (Some(a), Some(b)) => !a.matches(style, b),
            (None, None) => false,
            _ => true,
        };
        if elapsed >= 60000 || moved {
            self.last = now;
            self.destination = copy_destination(current);
            true
        } else {
            false
        }
    }
}

/// What a member says of itself.
pub struct Presence {
    pub name: Option<String>,
    pub playback: Option<bool>,
    pub queue_content_id: Option<String>,
    /// The route to the device; empty where it is not known.
    pub route: String,
}

/// The state of a member after it was asked: what was known of it, its stored name, and what it
/// answered. A new member is called `fallback` until a name is known.
pub open spec fn member_of(
    previous: Option<Device>,
    id: String,
    fallback: String,
    stored_name: Option<String>,
    answer: Option<Presence>,
) -> Device {
    let known = match previous {
        Some(device) => device,
        None => Device::fresh_of(id, fallback, false, true),
    };
    let named = Device {
        name: match stored_name {
            Some(name) => name,
            None => known.name,
        },
        enrolled: true,
        ..known
    };
    match answer {
        Some(presence) => Device {
            name: match presence.name {
                Some(name) => name,
                None => named.name,
            },
            has_playback: presence.playback == Some(true),
            queue_content_id: presence.queue_content_id,
            reachable: true,
            connection: label_of(presence.route),
            ..named
        },
        None => unreachable_of(named),
    }
}

pub fn refreshed_device(
    previous: Option<Device>,
    id: String,
    stored_name: Option<String>,
    answer: Option<Presence>,
) -> (device: Device)
    ensures
        exists|fallback: String| #[trigger] fallback@ == "Rufin"@ && device == member_of(
            previous,
            id,
            fallback,
            stored_name,
            answer,
        ),
{
    let fallback = "Rufin".to_owned();
    let ghost name = fallback;
    assert(name@ == "Rufin"@);
    let mut device = match previous {
        Some(device) => device,
        None => Device::fresh(id, fallback, false, true),
    };
    if let Some(stored) = stored_name {
        device.name = stored;
    }
    device.enrolled = true;
    match answer {
        Some(presence) => {
            if let Some(answered) = presence.name {
                device.name = answered;
            }
            device.has_playback = match presence.playback {
                Some(playback) => playback,
                None => false,
            };
            device.queue_content_id = presence.queue_content_id;
            device.reachable = true;
            device.connection = connection_label(presence.route);
        },
        None => {
            device.reachable = false;
            device.has_playback = false;
            device.connection = Connection::Waiting;
        },
    }
    device
}

/// What a projected record speaks of.
#[derive(Clone, Copy, Debug, PartialEq, Eq, Structural)]
pub enum RecordKind {
    Device,
    Destination,
    Relay,
    PublicRelay,
    FileKey,
    Other,
}

pub open spec fn kind_of(kind: Seq<char>, key: Seq<char>) -> RecordKind {
    if kind == "device"@ {
        RecordKind::Device
    } else if kind == "connect_storage"@ && key == "destination"@ {
        RecordKind::Destination
    } else if kind == "connect_network"@ && key == "relay"@ {
        RecordKind::Relay
    } else if kind == "connect_network"@ && key == "public_relay"@ {
        RecordKind::PublicRelay
    } else if kind == "connect_key"@ {
        RecordKind::FileKey
    } else {
        RecordKind::Other
    }
}

pub fn record_kind(kind: &str, key: &str) -> (result: RecordKind)
    ensures
        result == kind_of(kind@, key@),
{
    if same(kind, "device") {
        RecordKind::Device
    } else if same(kind, "connect_storage") && same(key, "destination") {
        RecordKind::Destination
    } else if same(kind, "connect_network") && same(key, "relay") {
        RecordKind::Relay
    } else if same(kind, "connect_network") && same(key, "public_relay") {
        RecordKind::PublicRelay
    } else if same(kind, "connect_key") {
        RecordKind::FileKey
    } else {
        RecordKind::Other
    }
}

/// A record of the profile that concerns Connect itself.
pub enum ProfileRecord {
    /// A device and its name, where the record holds one.
    Device { id: String, name: Option<String> },
    Destination(Option<Destination>),
    Relay(Option<String>),
    /// The flag, where the record holds one.
    PublicRelay(Option<bool>),
    /// The file key, where the record holds one.
    FileKey(Option<String>),
    Other,
}

/// What a projected record leads to.
pub enum RecordStep {
    Nothing,
    RenameDevice { id: String, name: String },
    Save(SettingsEdit),
    /// The key is installed, and handed to new members while the network is open.
    InstallKey { profile: String, key: String, share: bool },
}

/// What follows from a projected record of a profile.
pub open spec fn record_step(record: ProfileRecord, profile: String, network_open: bool) -> RecordStep {
    match record {
        ProfileRecord::Device { id, name: Some(name) } => RecordStep::RenameDevice { id, name },
        ProfileRecord::Destination(Some(destination)) => if destination.remote() {
            RecordStep::Save(SettingsEdit::Destination(Some(destination)))
        } else {
            RecordStep::Nothing
        },
        ProfileRecord::Destination(None) => RecordStep::Save(
            SettingsEdit::RemoteForgotten(profile),
        ),
        ProfileRecord::Relay(relay) => RecordStep::Save(SettingsEdit::Relay(relay)),
        ProfileRecord::PublicRelay(flag) => RecordStep::Save(
            SettingsEdit::PublicRelay(flag == Some(true)),
        ),
        ProfileRecord::FileKey(Some(key)) => RecordStep::InstallKey {
            profile: profile,
            key,
            share: network_open,
        },
        _ => RecordStep::Nothing,
    }
}

/// Follows one projected record of the session's profile.
pub fn project_record(record: ProfileRecord, profile: &String, network_open: bool) -> (result:
    RecordStep)
    ensures
        result == record_step(record, *profile, network_open),
{
    match record {
        ProfileRecord::Device { id, name } => match name {
            Some(name) => RecordStep::RenameDevice { id, name },
            None => RecordStep::Nothing,
        },
        ProfileRecord::Destination(destination) => match destination {
            Some(destination) => if destination.is_remote() {
                RecordStep::Save(SettingsEdit::Destination(Some(destination)))
            } else {
                RecordStep::Nothing
            },
            None => RecordStep::Save(SettingsEdit::RemoteForgotten(profile.clone())),
        },
        ProfileRecord::Relay(relay) => RecordStep::Save(SettingsEdit::Relay(relay)),
        ProfileRecord::PublicRelay(flag) => RecordStep::Save(
            SettingsEdit::PublicRelay(
                match flag {
                    Some(flag) => flag,
                    None => false,
                },
            ),
        ),
        ProfileRecord::FileKey(key) => match key {
            Some(key) => RecordStep::InstallKey {
                profile: profile.clone(),
                key,
                share: network_open,
            },
            None => RecordStep::Nothing,
        },
        ProfileRecord::Other => RecordStep::Nothing,
    }
}

/// What the pages of a projection have brought so far.
#[derive(Clone, Copy, Debug, PartialEq, Eq, Structural)]
pub struct Projection {
    pub changed: bool,
    pub sources_changed: bool,
    pub projected: bool,
}

impl Projection {
    pub fn new() -> (result: Self)
        ensures
            !result.changed && !result.sources_changed && !result.projected,
    {
        Projection { changed: false, sources_changed: false, projected: false }
    }

    /// Takes in a page of `records` records. Says whether another page follows: an empty page is
    /// the last, and so is the first one unless all are asked for.
    pub fn apply_projection(
        &mut self,
        records: usize,
        library_changed: bool,
        sources_changed: bool,
        all: bool,
    ) -> (more: bool)
        ensures
            more == (records > 0 && all),
            *final(self) == if records == 0 {
                *old(self)
            } else {
                (Projection {
                    changed: old(self).changed || library_changed,
                    sources_changed: old(self).sources_changed || sources_changed,
                    projected: true,
                })
            },
    {
        if records == 0 {
            return false;
        }
        self.projected = true;
        self.changed = self.changed || library_changed;
        self.sources_changed = self.sources_changed || sources_changed;
        all
    }
}

/// What another device asks for.
pub enum Request {
    Presence,
    ProfileSnapshot { setup: bool },
    Continuation,
    Queue { offset: usize },
    TrackReference { uri: String },
    StopContinuation,
    Control { command: Control },
    Media { id: String, uri: String, encoding: Encoding, occurrence: Option<String> },
    CancelMedia { id: String },
}

/// A continuation that was offered to a peer: when, and what.
pub struct Transfer<T> {
    pub started: u64,
    pub snapshot: T,
}

/// The continuations that were offered, one for each peer at most.
pub struct Transfers<T> {
    offers: TextMap<Transfer<T>>,
}

/// The offers that are not older than five minutes. Times count milliseconds.
pub open spec fn recent<T>(offers: Map<Seq<char>, Transfer<T>>, now: u64) -> Map<
    Seq<char>,
    Transfer<T>,
> {
    offers.restrict(offers.dom().filter(|peer: Seq<char>| now - offers[peer].started < 300000))
}

impl<T> View for Transfers<T> {
    type V = Map<Seq<char>, Transfer<T>>;

    closed spec fn view(&self) -> Map<Seq<char>, Transfer<T>> {
        self.offers@
    }
}

impl<T> Transfers<T> {
    pub closed spec fn wf(&self) -> bool {
        self.offers.wf()
    }

    pub fn new() -> (result: Self)
        ensures
            result.wf(),
            result@ == Map::<Seq<char>, Transfer<T>>::empty(),
    {
        Transfers { offers: TextMap::new() }
    }

    /// Offers a continuation to a peer. Offers that have expired are dropped.
    pub fn offer(&mut self, peer: String, now: u64, snapshot: T)
        requires
            old(self).wf(),
        ensures
            final(self).wf(),
            final(self)@ == recent(old(self)@, now).insert(
                peer@,
                (Transfer { started: now, snapshot }),
            ),
    {
        let mut kept: TextMap<Transfer<T>> = TextMap::new();
        let ghost all = self.offers@;
        let ghost live = recent(all, now);
        while self.offers.len() > 0
            invariant
                self.wf(),
                kept.wf(),
                live == recent(all, now),
                forall|key: Seq<char>| #[trigger]
                    self.offers@.dom().contains(key) ==> all.dom().contains(key)
                        && self.offers@[key] == all[key],
                kept@.dom().disjoint(self.offers@.dom()),
                forall|key: Seq<char>| #[trigger]
                    all.dom().contains(key) && !self.offers@.dom().contains(key) ==> (
                    kept@.dom().contains(key) <==> live.dom().contains(key)),
                forall|key: Seq<char>| #[trigger]
                    kept@.dom().contains(key) ==> all.dom().contains(key) && kept@[key] == all[key],
            decreases self.offers@.dom().len(),
        {
            let key = {
                let entry = self.offers.entry(0);
                entry.0.to_owned()
            };
            let ghost before = self.offers@;
            assert(before.dom().contains(key@));
            assert(all.dom().contains(key@) && all[key@] == before[key@]);
            match self.offers.remove(key.as_str()) {
                Some(transfer) => {
                    if now.saturating_sub(transfer.started) < 300000 {
                        kept.insert(key, transfer);
                    }
                },
                None => {},
            }
        }
        assert(self.offers@.dom() =~= Set::<Seq<char>>::empty());
        assert(kept@ =~= live);
        kept.insert(peer, Transfer { started: now, snapshot });
        self.offers = kept;
    }

    /// What was offered to a peer.
    pub fn offered(&self, peer: &str) -> (result: Result<&T, Refusal>)
        requires
            self.wf(),
        ensures
            match result {
                Ok(snapshot) => self@.dom().contains(peer@) && *snapshot == self@[peer@].snapshot,
                Err(reason) => !self@.dom().contains(peer@) && reason
                    == Refusal::ContinuationExpired,
            },
    {
        match self.offers.get(peer) {
            Some(transfer) => Ok(&transfer.snapshot),
            None => Err(Refusal::ContinuationExpired),
        }
    }

    /// Takes back what was offered to a peer.
    pub fn take(&mut self, peer: &str) -> (result: Result<T, Refusal>)
        requires
            old(self).wf(),
        ensures
            final(self).wf(),
            final(self)@ == old(self)@.remove(peer@),
            match result {
                Ok(snapshot) => old(self)@.dom().contains(peer@) && snapshot
                    == old(self)@[peer@].snapshot,
                Err(reason) => !old(self)@.dom().contains(peer@) && reason
                    == Refusal::ContinuationExpired,
            },
    {
        match self.offers.remove(peer) {
            Some(transfer) => Ok(transfer.snapshot),
            None => Err(Refusal::ContinuationExpired),
        }
    }
}

/// A continuation can be stopped once: what was taken is not offered any more.
pub proof fn a_continuation_is_taken_once<T>(offers: Map<Seq<char>, Transfer<T>>, peer: Seq<char>)
    ensures
        !offers.remove(peer).dom().contains(peer),
{
}

/// The queue of another player as it comes in, page by page.
pub struct QueueTransfer {
    pub offset: usize,
    pub total: usize,
    pub has_current: bool,
}

impl QueueTransfer {
    pub fn new(total: usize) -> (result: Self)
        ensures
            result == (QueueTransfer { offset: 0, total, has_current: false }),
    {
        QueueTransfer { offset: 0, total, has_current: false }
    }

    /// The start of the next page; after the last one the current track must have been among them.
    pub fn next(&self) -> (result: Result<Option<usize>, Refusal>)
        ensures
            result == if self.offset < self.total {
                Ok::<Option<usize>, Refusal>(Some(self.offset))
            } else if self.has_current {
                Ok(None)
            } else {
                Err(Refusal::NoCurrentTrack)
            },
    {
        if self.offset < self.total {
            Ok(Some(self.offset))
        } else if self.has_current {
            Ok(None)
        } else {
            Err(Refusal::NoCurrentTrack)
        }
    }

    /// Takes in a page: its rows, of which one may be the current track. An empty page means that
    /// the queue changed meanwhile.
    pub fn page(&mut self, rows: usize, holds_current: bool) -> (result: Result<(), Refusal>)
        requires
            old(self).offset + rows <= usize::MAX,
        ensures
            rows == 0 ==> result == Err::<(), Refusal>(Refusal::QueueChanged) && *final(self)
                == *old(self),
            rows > 0 ==> result is Ok && *final(self) == (QueueTransfer {
                offset: (old(self).offset + rows) as usize,
                has_current: old(self).has_current || holds_current,
                ..*old(self)
            }),
    {
        if rows == 0 {
            return Err(Refusal::QueueChanged);
        }
        self.offset += rows;
        self.has_current = self.has_current || holds_current;
        Ok(())
    }
}

/// How a current track becomes playable that this device does not know.
#[derive(Clone, Copy, Debug, PartialEq, Eq, Structural)]
pub enum CurrentTrack {
    Playable,
    /// The reference that the other device gave is stored.
    StoreReference,
    /// The file itself is fetched.
    FetchDirectly,
}

pub fn current_track(known: bool, has_reference: bool, is_file: bool) -> (result: CurrentTrack)
    ensures
        result == if known {
            CurrentTrack::Playable
        } else if has_reference {
            CurrentTrack::StoreReference
        } else if is_file {
            CurrentTrack::FetchDirectly
        } else {
            CurrentTrack::Playable
        },
{
    if known {
        CurrentTrack::Playable
    } else if has_reference {
        CurrentTrack::StoreReference
    } else if is_file {
        CurrentTrack::FetchDirectly
    } else {
        CurrentTrack::Playable
    }
}

/// What happens to the keys of a profile when one is installed.
pub enum KeyChange {
    /// The key is the one in use.
    Unchanged,
    /// The key is stored; before that the list of earlier keys, where it grew.
    Store { retained: Option<Vec<String>> },
}

/// Whether the list of earlier keys is looked at: only where another key is in use.
pub fn replaces_key(previous: &Option<String>, key: &str) -> (result: bool)
    ensures
        result == (previous is Some && shown(*previous) != Some(key@)),
{
    match previous {
        Some(previous) => !same(previous.as_str(), key),
        None => false,
    }
}

/// Installs a key over the one in use, which is kept among the earlier ones.
pub fn change_key(previous: &Option<String>, key: &str, retained: Vec<String>) -> (result: KeyChange)
    ensures
        match result {
            KeyChange::Unchanged => shown(*previous) == Some(key@),
            KeyChange::Store { retained: list } => {
                &&& shown(*previous) != Some(key@)
                &&& list is Some <==> (previous matches Some(previous) && !has_text(
                    retained@,
                    previous@,
                ))
                &&& list matches Some(list) ==> list@ == keys_kept(retained@, previous->0)
            },
        },
{
    match previous {
        Some(previous) => {
            if same(previous.as_str(), key) {
                return KeyChange::Unchanged;
            }
            if list_has(&retained, previous.as_str()) {
                return KeyChange::Store { retained: None };
            }
            let mut list = retained;
            list.push(previous.clone());
            KeyChange::Store { retained: Some(list) }
        },
        None => KeyChange::Store { retained: None },
    }
}

/// The earlier keys after `previous` was replaced.
pub open spec fn keys_kept(retained: Seq<String>, previous: String) -> Seq<String> {
    if has_text(retained, previous@) {
        retained
    } else {
        retained.push(previous)
    }
}

/// No key is lost when another takes its place: the key that was in use is among the earlier ones,
/// and so is every key that was there before.
pub proof fn replaced_keys_are_retained(previous: String, retained: Seq<String>)
    ensures
        has_text(keys_kept(retained, previous), previous@),
        forall|text: Seq<char>| #[trigger]
            has_text(retained, text) ==> has_text(keys_kept(retained, previous), text),
{
    let list = retained.push(previous);
    assert(list[retained.len() as int]@ == previous@);
    assert forall|text: Seq<char>| #[trigger] has_text(retained, text) implies has_text(list, text) by {
        let i = choose|i: int| 0 <= i < retained.len() && #[trigger] retained[i]@ == text;
        assert(list[i]@ == text);
    }
}

/// A device follows what the others wrote into the profile: it shows the name that a device has
/// written of itself, reaches others as they said, keeps files in the source that they named, or on
/// this device again where they named none, and installs the key that they use.
pub proof fn devices_follow_what_others_wrote(
    record: ProfileRecord,
    profile: String,
    network_open: bool,
)
    ensures
        match record_step(record, profile, network_open) {
            RecordStep::RenameDevice { id, name } => record == (ProfileRecord::Device {
                id,
                name: Some(name),
            }),
            RecordStep::Save(SettingsEdit::Destination(destination)) => record
                == ProfileRecord::Destination(destination) && (destination matches Some(
                Destination::Remote { .. },
            )),
            RecordStep::Save(SettingsEdit::RemoteForgotten(of)) => of == profile && record
                == ProfileRecord::Destination(None),
            RecordStep::Save(SettingsEdit::Relay(relay)) => record == ProfileRecord::Relay(relay),
            RecordStep::Save(SettingsEdit::PublicRelay(enabled)) =>
                record matches ProfileRecord::PublicRelay(flag) && (enabled <==> flag == Some(
                    true,
                )),
            RecordStep::Save(_) => false,
            RecordStep::InstallKey { profile: of, key, share } => of == profile && record
                == ProfileRecord::FileKey(Some(key)) && share == network_open,
            RecordStep::Nothing => match record {
                ProfileRecord::Device { name, .. } => name is None,
                ProfileRecord::Destination(destination) => destination matches Some(
                    Destination::Local { .. },
                ),
                ProfileRecord::FileKey(key) => key is None,
                ProfileRecord::Other => true,
                ProfileRecord::Relay(_) | ProfileRecord::PublicRelay(_) => false,
            },
        },
{
}

/// The name of a record's kind, and of what it is about where the kind does not say.
pub open spec fn record_name(kind: RecordKind) -> (Seq<char>, Option<Seq<char>>) {
    match kind {
        RecordKind::Device => ("device"@, None),
        RecordKind::Destination => ("connect_storage"@, Some("destination"@)),
        RecordKind::Relay => ("connect_network"@, Some("relay"@)),
        RecordKind::PublicRelay => ("connect_network"@, Some("public_relay"@)),
        RecordKind::FileKey => ("connect_key"@, None),
        RecordKind::Other => (""@, None),
    }
}

/// A record is taken for what it is named.
pub proof fn records_are_what_they_are_named(kind: Seq<char>, key: Seq<char>)
    ensures
        ({
            let found = kind_of(kind, key);
            let (name, about) = record_name(found);
            found != RecordKind::Other ==> kind == name && (about matches Some(about) ==> key
                == about)
        }),
        kind == "device"@ ==> kind_of(kind, key) == RecordKind::Device,
        kind_of(kind, key) == RecordKind::Other ==> kind != "device"@ && kind != "connect_key"@ && !(
        kind == "connect_storage"@ && key == "destination"@) && !(kind == "connect_network"@ && (key
            == "relay"@ || key == "public_relay"@)),
{
}

/// A member that answers is within reach, under the name that it gives itself, and plays where it
/// says so; one that does not answer is out of reach and plays nothing. Either way it is one of the
/// profile, and stays the device it was.
pub proof fn members_are_shown_as_they_answer(
    previous: Option<Device>,
    id: String,
    fallback: String,
    stored: Option<String>,
    answer: Option<Presence>,
)
    ensures
        ({
            let device = member_of(previous, id, fallback, stored, answer);
            &&& device.enrolled
            &&& device.reachable <==> answer is Some
            &&& device.has_playback <==> (answer matches Some(presence) && presence.playback == Some(
                true,
            ))
            &&& previous matches Some(known) ==> device.id == known.id
            &&& previous is None ==> device.id == id
            &&& answer matches Some(presence) ==> (presence.name matches Some(name) ==> device.name
                == name)
            &&& answer matches Some(presence) ==> device.queue_content_id
                == presence.queue_content_id
            &&& (answer is None || answer->0.name is None) ==> (stored matches Some(name)
                ==> device.name == name)
            &&& (answer is None || answer->0.name is None) && stored is None ==> (
            previous matches Some(known) ==> device.name == known.name)
        }),
{
}

} // verus!
