//! The state that decides what Connect does next.

use vstd::prelude::*;

use crate::connect::status::Status;
use crate::textmap::TextMap;

verus! {

/// Why an action is refused.
#[derive(Clone, Copy, Debug, PartialEq, Eq, Structural)]
pub enum Refusal {
    PairingInProgress,
    AlreadyHasProfile,
    ReplaceRequired,
    RedownloadRequired,
    FileNotFound,
    NoProfile,
    Disabled,
    KeyUnavailable,
    PairAgain,
    PairForAccess,
    WrongProfile,
    OtherProfile,
    NotAMember,
    NotJoining,
    NoProfileFromPeer,
    NoPlayback,
    ContinuationExpired,
    PlaybackChanged,
    QueueChanged,
    NoCurrentTrack,
}

impl Refusal {
    pub open spec fn message(self) -> Seq<char> {
        match self {
            Refusal::PairingInProgress => "Pairing is already in progress"@,
            Refusal::AlreadyHasProfile => "This device already has a Connect profile"@,
            Refusal::ReplaceRequired => "Connecting an existing profile will remove all data in this device, do you really want to continue?"@,
            Refusal::RedownloadRequired => "Changing this will redownload all local files."@,
            Refusal::FileNotFound => "The Connect file was not found"@,
            Refusal::NoProfile => "Create or join a Connect profile first"@,
            Refusal::Disabled => "Rufin Connect is disabled"@,
            Refusal::KeyUnavailable => "The Connect file key is unavailable"@,
            Refusal::PairAgain => "The Connect file key is unavailable. Pair with a trusted device again"@,
            Refusal::PairForAccess => "Pair with a trusted device to obtain access to this Connect file"@,
            Refusal::WrongProfile => "The received profile does not match the verified device"@,
            Refusal::OtherProfile => "The Connect file belongs to another profile"@,
            Refusal::NotAMember => "This device is not a member of the active profile"@,
            Refusal::NotJoining => "This device is not joining a profile"@,
            Refusal::NoProfileFromPeer => "The peer did not provide its profile"@,
            Refusal::NoPlayback => "There is no playback to continue"@,
            Refusal::ContinuationExpired => "Continuation expired"@,
            Refusal::PlaybackChanged => "Playback changed. Request continuation again"@,
            Refusal::QueueChanged => "The source queue changed during continuation"@,
            Refusal::NoCurrentTrack => "The source queue has no current track"@,
        }
    }

    pub fn text(self) -> (result: &'static str)
        ensures
            result@ == self.message(),
    {
        match self {
            Refusal::PairingInProgress => "Pairing is already in progress",
            Refusal::AlreadyHasProfile => "This device already has a Connect profile",
            Refusal::ReplaceRequired => "Connecting an existing profile will remove all data in this device, do you really want to continue?",
            Refusal::RedownloadRequired => "Changing this will redownload all local files.",
            Refusal::FileNotFound => "The Connect file was not found",
            Refusal::NoProfile => "Create or join a Connect profile first",
            Refusal::Disabled => "Rufin Connect is disabled",
            Refusal::KeyUnavailable => "The Connect file key is unavailable",
            Refusal::PairAgain => "The Connect file key is unavailable. Pair with a trusted device again",
            Refusal::PairForAccess => "Pair with a trusted device to obtain access to this Connect file",
            Refusal::WrongProfile => "The received profile does not match the verified device",
            Refusal::OtherProfile => "The Connect file belongs to another profile",
            Refusal::NotAMember => "This device is not a member of the active profile",
            Refusal::NotJoining => "This device is not joining a profile",
            Refusal::NoProfileFromPeer => "The peer did not provide its profile",
            Refusal::NoPlayback => "There is no playback to continue",
            Refusal::ContinuationExpired => "Continuation expired",
            Refusal::PlaybackChanged => "Playback changed. Request continuation again",
            Refusal::QueueChanged => "The source queue changed during continuation",
            Refusal::NoCurrentTrack => "The source queue has no current track",
        }
    }
}

/// An open profile.
pub struct Session {
    pub profile: String,
    pub identity: String,
    /// The peers from which records are coming in.
    pub receiving: TextMap<()>,
    /// Whether projected records have changed the catalog since clients were last told.
    pub catalog_changed: bool,
}

impl Session {
    pub open spec fn wf(&self) -> bool {
        self.receiving.wf()
    }
}

/// What Connect knows of itself.
pub struct Owner {
    pub status: Status,
    /// A profile is being taken over.
    pub joining: bool,
    pub network_open: bool,
    pub session: Option<Session>,
}

impl Owner {
    pub open spec fn wf(&self) -> bool {
        self.status.wf() && (self.session matches Some(session) ==> session.wf())
    }
}

} // verus!
