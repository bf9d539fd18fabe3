//! What the network reports, and what follows from it.

use vstd::prelude::*;

use crate::connect::owner::{Owner, Refusal, Session};
use crate::connect::status::{
    device_at, device_changed, pairs_with, unreachable_of, without, Device, Notice, Pairing, Status,
};
use crate::text::{same, shown};

verus! {

/// A report of the network.
#[allow(inconsistent_fields)]
pub enum NetworkEvent {
    Invitation(String),
    Pairing { session: String, peer: String, name: String, emoji: [String; 7] },
    PairingVerified { session: String },
    /// Another device let this one into its profile.
    Paired { profile_id: String, peer: String, name: String },
    MemberAdded { peer: String, name: String },
    Discovered { peer: String, name: String },
    MembershipChanged,
    Request { profile: String, peer: String },
    Syncing { profile: String, peer: String, active: bool },
    Unavailable { profile: String, peer: String },
    Error(String),
    PairingFailed { session: Option<String>, error: String },
}

/// What is done after an event.
pub enum Follow {
    /// The shown state did not change.
    Nothing,
    /// Clients are told of the new state.
    Notify,
    /// The profile is taken over, while clients are told of the new state.
    Adopt { profile_id: String, peer: String, name: String },
    /// The profile is marked as established; then the member is shown.
    Enroll { peer: String, name: String },
    /// The members are read: a device that is no longer one of them leaves.
    CheckMembership,
    Answer { profile: String, peer: String },
    /// When its turn comes, the profile from before the pairing is restored.
    Restore { session: Option<String>, message: String },
    Fail(String),
}

impl Owner {
    /// The session of the given profile is open.
    pub open spec fn in_profile(&self, profile: Seq<char>) -> bool {
        self.session matches Some(session) && session.profile@ == profile
    }

    /// A failed pairing is not the one that is shown.
    pub open spec fn foreign_failure(&self, session: Option<String>) -> bool {
        session matches Some(session) && !pairs_with(self.status.pairing, session@)
    }

    /// What an event leads to, and the state after it.
    pub open spec fn reacts(&self, event: NetworkEvent, follow: Follow, after: Owner) -> bool {
        let status = self.status;
        match event {
            NetworkEvent::Invitation(invitation) => {
                &&& after == (Owner {
                    status: (Status { invitation: after.status.invitation, ..status }),
                    ..*self
                })
                &&& shown(after.status.invitation) == Some(invitation@)
                &&& follow == if shown(status.invitation) == Some(invitation@) {
                    Follow::Nothing
                } else {
                    Follow::Notify
                }
            },
            NetworkEvent::Pairing { session, peer, name, emoji } => {
                &&& follow == Follow::Notify
                &&& after == (Owner {
                    status: (Status {
                        error: None,
                        connecting: false,
                        pairing: Some(
                            Pairing {
                                session,
                                peer,
                                name,
                                emoji,
                                approved: false,
                                verified: false,
                            },
                        ),
                        ..status
                    }),
                    ..*self
                })
            },
            NetworkEvent::PairingVerified { session } => {
                &&& follow == Follow::Notify
                &&& after == (Owner {
                    status: (Status {
                        pairing: if pairs_with(status.pairing, session@) {
                            Some(Pairing { approved: true, verified: true, ..status.pairing->0 })
                        } else {
                            status.pairing
                        },
                        ..status
                    }),
                    ..*self
                })
            },
            NetworkEvent::Paired { profile_id, peer, name } => if self.network_open {
                &&& follow == Follow::Adopt { profile_id, peer, name }
                &&& after == (Owner {
                    status: (Status {
                        pairing: None,
                        connecting: true,
                        profile_status: Notice::ReceivingProfile,
                        ..status
                    }),
                    ..*self
                })
            } else {
                &&& follow matches Follow::Fail(message) && message@ == Refusal::Disabled.message()
                &&& after == *self
            },
            NetworkEvent::MemberAdded { peer, name } => {
                &&& follow == Follow::Enroll { peer, name }
                &&& after == *self
            },
            NetworkEvent::Discovered { peer, name } => {
                &&& follow == Follow::Notify
                &&& after.status.devices@ == if device_at(status.devices@, peer@, 0) is None {
                    status.devices@.push(Device::fresh_of(peer, name, true, false))
                } else {
                    status.devices@
                }
                &&& after == (Owner {
                    status: (Status { devices: after.status.devices, ..status }),
                    ..*self
                })
            },
            NetworkEvent::MembershipChanged => {
                &&& follow == if self.joining {
                    Follow::Nothing
                } else {
                    Follow::CheckMembership
                }
                &&& after == *self
            },
            NetworkEvent::Request { profile, peer } => {
                &&& follow == Follow::Answer { profile, peer }
                &&& after == *self
            },
            NetworkEvent::Syncing { profile, peer, active } => if self.in_profile(profile@) {
                let message = if status.connecting {
                    Notice::ReceivingProfile
                } else {
                    Notice::ReceivingCollection
                };
                &&& after.session is Some
                &&& after.session->0.wf()
                &&& after.session->0.receiving@ == if active {
                    self.session->0.receiving@.insert(peer@, ())
                } else {
                    self.session->0.receiving@.remove(peer@)
                }
                &&& after == (Owner {
                    session: Some(
                        Session {
                            receiving: after.session->0.receiving,
                            ..self.session->0
                        },
                    ),
                    status: if active {
                        (Status {
                            receiving_collection: true,
                            profile_status: message,
                            ..status
                        })
                    } else {
                        status
                    },
                    ..*self
                })
                &&& follow == if active && (!status.receiving_collection || status.profile_status
                    != message) {
                    Follow::Notify
                } else {
                    Follow::Nothing
                }
            } else {
                follow == Follow::Nothing && after == *self
            },
            NetworkEvent::Unavailable { profile, peer } => {
                let lost = shown(status.settings.profile) == Some(profile@) && status.loses(peer@);
                &&& follow == if lost {
                    Follow::Notify
                } else {
                    Follow::Nothing
                }
                &&& after.status.devices@ == if lost {
                    device_changed(
                        status.devices@,
                        peer@,
                        |device: Device| unreachable_of(device),
                    )
                } else {
                    status.devices@
                }
                &&& after == (Owner {
                    status: (Status { devices: after.status.devices, ..status }),
                    ..*self
                })
            },
            NetworkEvent::Error(message) => follow == Follow::Fail(message) && after == *self,
            NetworkEvent::PairingFailed { session, error } => if self.foreign_failure(session) {
                follow == Follow::Nothing && after == *self
            } else if self.joining {
                follow == Follow::Restore { session, message: error } && after == *self
            } else {
                &&& follow == Follow::Fail(error)
                &&& after == (Owner {
                    status: (Status { pairing: None, connecting: false, ..status }),
                    ..*self
                })
            },
        }
    }

    /// Takes in an event and says what follows.
    pub fn event(&mut self, event: NetworkEvent) -> (follow: Follow)
        requires
            old(self).wf(),
        ensures
            final(self).wf(),
            old(self).reacts(event, follow, *final(self)),
    {
        match event {
            NetworkEvent::Invitation(invitation) => {
                let known: bool = match &self.status.invitation {
                    Some(current) => same(current.as_str(), invitation.as_str()),
                    None => false,
                };
                if known {
                    return Follow::Nothing;
                }
                self.status.invitation = Some(invitation);
                Follow::Notify
            },
            NetworkEvent::Pairing { session, peer, name, emoji } => {
                self.status.error = None;
                self.status.connecting = false;
                self.status.pairing = Some(
                    Pairing { session, peer, name, emoji, approved: false, verified: false },
                );
                Follow::Notify
            },
            NetworkEvent::PairingVerified { session } => {
                self.status.pairing_verified(session.as_str());
                Follow::Notify
            },
            NetworkEvent::Paired { profile_id, peer, name } => {
                if !self.network_open {
                    return Follow::Fail(Refusal::Disabled.text().to_owned());
                }
                self.status.pairing = None;
                self.status.connecting = true;
                self.status.profile_status = Notice::ReceivingProfile;
                Follow::Adopt { profile_id, peer, name }
            },
            NetworkEvent::MemberAdded { peer, name } => Follow::Enroll { peer, name },
            NetworkEvent::Discovered { peer, name } => {
                self.status.device_discovered(peer, name);
                Follow::Notify
            },
            NetworkEvent::MembershipChanged => if self.joining {
                Follow::Nothing
            } else {
                Follow::CheckMembership
            },
            NetworkEvent::Request { profile, peer } => Follow::Answer { profile, peer },
            NetworkEvent::Syncing { profile, peer, active } => self.syncing(profile, peer, active),
            NetworkEvent::Unavailable { profile, peer } => {
                let ours: bool = match &self.status.settings.profile {
                    Some(current) => same(current.as_str(), profile.as_str()),
                    None => false,
                };
                if ours && self.status.device_lost(peer.as_str()) {
                    Follow::Notify
                } else {
                    Follow::Nothing
                }
            },
            NetworkEvent::Error(message) => Follow::Fail(message),
            NetworkEvent::PairingFailed { session, error } => {
                if let Some(failed) = &session {
                    if !self.status.is_pairing(failed.as_str()) {
                        return Follow::Nothing;
                    }
                }
                if self.joining {
                    Follow::Restore { session, message: error }
                } else {
                    self.status.end_pairing();
                    Follow::Fail(error)
                }
            },
        }
    }

    fn syncing(&mut self, profile: String, peer: String, active: bool) -> (follow: Follow)
        requires
            old(self).wf(),
        ensures
            final(self).wf(),
            old(self).reacts(
                (NetworkEvent::Syncing { profile, peer, active }),
                follow,
                *final(self),
            ),
    {
        match &mut self.session {
            Some(session) => {
                if !same(session.profile.as_str(), profile.as_str()) {
                    return Follow::Nothing;
                }
                if active {
                    session.receiving.insert(peer, ());
                } else {
                    let _ = session.receiving.remove(peer.as_str());
                }
            },
            None => {
                return Follow::Nothing;
            },
        }
        if active && self.status.receiving() {
            Follow::Notify
        } else {
            Follow::Nothing
        }
    }

    /// Shows a member whose enrollment was stored.
    pub fn member_added(&mut self, peer: String, name: String)
        requires
            old(self).status.completed_pairings < u64::MAX,
        ensures
            final(self).status.devices@ == without(old(self).status.devices@, peer@).push(
                Device::fresh_of(peer, name, true, true),
            ),
            *final(self) == (Owner {
                status: (Status {
                    completed_pairings: (old(self).status.completed_pairings + 1) as u64,
                    error: None,
                    pairing: None,
                    connecting: false,
                    devices: final(self).status.devices,
                    ..old(self).status
                }),
                ..*old(self)
            }),
    {
        self.status.completed_pairings += 1;
        self.status.error = None;
        self.status.end_pairing();
        self.status.device_enrolled(peer, name);
    }

    /// Whether a failed pairing still concerns this device when its turn has come: it is still
    /// joining, the pairing is still the one shown, and the profile was not taken over yet.
    pub fn still_restores(&self, session: &Option<String>) -> (result: bool)
        ensures
            result == (self.joining && !self.foreign_failure(*session)
                && !self.status.settings.adopting),
    {
        let foreign: bool = match session {
            Some(session) => !self.status.is_pairing(session.as_str()),
            None => false,
        };
        self.joining && !foreign && !self.status.settings.adopting
    }

    /// Taking over a profile failed. Says whether the failure still concerns this device, and
    /// whether the profile from before is restored: not where the new one has begun to replace it.
    pub fn adoption_failed(&self, same_network: bool) -> (result: Option<bool>)
        ensures
            result == if self.joining && same_network {
                Some(!self.status.settings.adopting)
            } else {
                None
            },
    {
        if self.joining && same_network {
            Some(!self.status.settings.adopting)
        } else {
            None
        }
    }
}

/// A pairing that fails for a session which is not shown changes nothing and is not reported.
pub proof fn foreign_failures_are_silent(
    owner: Owner,
    session: String,
    error: String,
    follow: Follow,
    after: Owner,
)
    requires
        owner.reacts(
            (NetworkEvent::PairingFailed { session: Some(session), error }),
            follow,
            after,
        ),
        !pairs_with(owner.status.pairing, session@),
    ensures
        follow == Follow::Nothing,
        after == owner,
{
}

/// Records that another profile exchanges do not touch this one.
pub proof fn other_profiles_are_ignored(
    owner: Owner,
    profile: String,
    peer: String,
    active: bool,
    follow: Follow,
    after: Owner,
)
    requires
        owner.reacts((NetworkEvent::Syncing { profile, peer, active }), follow, after),
        !owner.in_profile(profile@),
    ensures
        follow == Follow::Nothing,
        after == owner,
{
}

/// No event changes the settings, opens or closes the network, or ends a join: those are steps that
/// follow it.
pub proof fn events_keep_the_settings(owner: Owner, event: NetworkEvent, follow: Follow, after: Owner)
    requires
        owner.reacts(event, follow, after),
    ensures
        after.status.settings == owner.status.settings,
        after.joining == owner.joining,
        after.network_open == owner.network_open,
        after.status.completed_pairings == owner.status.completed_pairings,
{
}

/// What follows from a report names what was reported: a profile is taken over, a member is let in, a
/// request is answered and a failure is told exactly where that was reported, for the devices and
/// with the words that were reported.
pub proof fn what_follows_names_what_was_reported(
    owner: Owner,
    event: NetworkEvent,
    follow: Follow,
    after: Owner,
)
    requires
        owner.reacts(event, follow, after),
    ensures
        match follow {
            Follow::Adopt { profile_id, peer, name } => event == (NetworkEvent::Paired {
                profile_id,
                peer,
                name,
            }) && owner.network_open,
            Follow::Enroll { peer, name } => event == (NetworkEvent::MemberAdded { peer, name }),
            Follow::CheckMembership => event is MembershipChanged && !owner.joining,
            Follow::Answer { profile, peer } => event == (NetworkEvent::Request { profile, peer }),
            Follow::Restore { session, message } => owner.joining && event == (
            NetworkEvent::PairingFailed { session, error: message }),
            Follow::Fail(message) => event == NetworkEvent::Error(message) || (
            event matches NetworkEvent::PairingFailed { error, .. } && error == message
                && !owner.joining) || (event is Paired && !owner.network_open),
            _ => true,
        },
        event is Paired && owner.network_open ==> follow is Adopt,
        event is MemberAdded ==> follow is Enroll,
        event is Request ==> follow is Answer,
        event is Error ==> follow is Fail,
        event is MembershipChanged && !owner.joining ==> follow is CheckMembership,
        event matches NetworkEvent::PairingFailed { session: None, .. } ==> !(follow is Nothing),
{
}

/// Clients are told of every change of what is shown: where nothing follows, nothing has changed but
/// who is sending records.
pub proof fn clients_are_told_of_changes(
    owner: Owner,
    event: NetworkEvent,
    follow: Follow,
    after: Owner,
)
    requires
        owner.reacts(event, follow, after),
        follow is Nothing,
    ensures
        after.status.error == owner.status.error,
        after.status.pairing == owner.status.pairing,
        after.status.connecting == owner.status.connecting,
        after.status.receiving_collection == owner.status.receiving_collection,
        after.status.profile_status == owner.status.profile_status,
        after.status.devices@ == owner.status.devices@,
        shown(after.status.invitation) == shown(owner.status.invitation),
        after.status.identity == owner.status.identity,
        after.joining == owner.joining && after.network_open == owner.network_open,
{
}

/// A pairing is shown as it was reported, and neither approved nor verified; only the report that it
/// was verified makes it both, and only for the pairing that is shown.
pub proof fn pairings_are_approved_by_their_own_report(
    owner: Owner,
    event: NetworkEvent,
    follow: Follow,
    after: Owner,
)
    requires
        owner.reacts(event, follow, after),
    ensures
        event matches NetworkEvent::Pairing { session, peer, name, emoji } ==> (
        after.status.pairing matches Some(pairing) && pairing.session == session && pairing.peer
            == peer && pairing.name == name && pairing.emoji == emoji && !pairing.approved
            && !pairing.verified),
        event matches NetworkEvent::PairingVerified { session } ==> (owner.status.pairing matches Some(
            pairing,
        ) ==> (after.status.pairing matches Some(now) && now.session == pairing.session && now.peer
            == pairing.peer && (pairing.session@ == session@ ==> now.approved && now.verified) && (
        pairing.session@ != session@ ==> now == pairing))),
        !(event is Pairing) && !(event is PairingVerified) ==> after.status.pairing is None
            || after.status.pairing == owner.status.pairing,
{
}

/// A device that was discovered is shown from then on, and those that were shown before stay; a
/// device that is lost stays shown, out of reach, and the others stay as they were.
pub proof fn discovered_devices_stay_shown(
    owner: Owner,
    event: NetworkEvent,
    follow: Follow,
    after: Owner,
    i: int,
)
    requires
        owner.reacts(event, follow, after),
        0 <= i < owner.status.devices@.len(),
    ensures
        after.status.devices@.len() >= owner.status.devices@.len(),
        after.status.devices@[i].id == owner.status.devices@[i].id,
        !(event is Unavailable) ==> after.status.devices@[i] == owner.status.devices@[i],
        event matches NetworkEvent::Unavailable { peer, .. } ==> (owner.status.devices@[i].id@ != peer@
            ==> after.status.devices@[i] == owner.status.devices@[i]),
        event matches NetworkEvent::Unavailable { profile, peer } ==> (device_at(
            owner.status.devices@,
            peer@,
            0,
        ) == Some(i) && shown(owner.status.settings.profile) == Some(profile@)
            ==> !after.status.devices@[i].reachable),
{
    if let NetworkEvent::Unavailable { peer, .. } = event {
        crate::connect::status::device_at_is_first(owner.status.devices@, peer@, 0);
    }
}

} // verus!
