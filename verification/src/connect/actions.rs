//! What each action of a client does, step by step.

use vstd::prelude::*;
use vstd::string::*;

use crate::connect::owner::{Owner, Refusal};
use crate::connect::settings::{copy_destination, edited, Destination, Encoding, SettingsEdit};
use crate::connect::status::{offline, pairs_with, Notice, Pairing, Status};
use crate::paths::PathStyle;
use crate::redaction::{parse_url, url_error, url_scheme};

verus! {

/// A command for another device's player.
#[derive(Clone, Copy, Debug, PartialEq, Eq, Structural)]
pub enum Control {
    Play,
    Pause,
    Stop,
    Next,
    Previous,
    Seek { millis: u64 },
    /// The volume, by the bits of its floating point number.
    Volume { bits: u64 },
}

/// What a client asks for.
pub enum Action {
    Enable { enabled: bool },
    Create,
    Join { invitation: String, replace: bool },
    Pair { session: String, approve: bool },
    CancelPairing,
    FinishSetup,
    Rename { name: String },
    Remove { peer: String },
    Leave,
    Refresh,
    Discover,
    TestConnection { peer: String },
    Network { nearby: bool, relay: Option<String>, public_relay: bool },
    Continue { peer: String },
    Control { peer: String, command: Control },
    Folder { source: String, root_id: Option<String>, path: String },
    Encoding { encoding: Encoding, confirm: bool },
    Download { peer: String, uri: String },
    CancelDownload,
    Destination { destination: Option<Destination> },
    Export { path: String, source_id: Option<String> },
    Import { path: String, source_id: Option<String>, replace: bool, key: Option<String> },
}

impl Action {
    /// The action gives up this device's data for another profile.
    pub open spec fn replaces(&self) -> bool {
        self matches Action::Join { replace: true, .. }
    }
}

/// A change of the shown state.
pub enum Shown {
    BeginJoining,
    Disabled,
    Left,
    PairingAnswered { session: String, approve: bool },
    EndPairing,
    SetupFinished,
    AwaitSetup,
    ErrorCleared,
}

/// One step of a plan. Steps are made in order, and a step that fails ends the plan.
pub enum Step {
    /// Taken until it is given back, or to the end of the plan.
    LockSync,
    UnlockSync,
    Save(SettingsEdit),
    Show(Shown),
    Joining(bool),
    StopSession,
    CancelMediaJobs,
    OpenNetwork,
    CloseNetwork,
    ConfigureNetwork,
    OpenProfile { profile: String, create: bool },
    CreateProfile,
    CloseProfile,
    LeaveProfile,
    RestoreAfterPairing,
    ReopenProfile,
    BeginPairing { invitation: String },
    ConfirmPairing { session: String, approve: bool },
    CancelPairing,
    AttachDocuments,
    Capture(bool),
    Synchronize,
    Exchange,
    RefreshDevices,
    SourcesChanged,
    MediaChanged,
    RenameNetwork { name: String },
    PublishDevice,
    RemoveMember { peer: String },
    /// A new file key is made; the next steps speak of it.
    MakeKey,
    InstallKey { profile: String },
    ShareKey,
    /// The new key is written to the profile and the device's record is taken out of it.
    WriteKeyAndForget { peer: String },
    /// The route, or the failure, is shown before the plan goes on or ends.
    TestConnection { peer: String },
    WriteNetwork { relay: Option<String>, public_relay: bool },
    WriteDestination(Option<Destination>),
    ContinueFrom { peer: String },
    SendControl { peer: String, command: Control },
    Download { peer: String, uri: String },
    ExportProfile,
    StoreInSource { source_id: String, path: String },
    StoreLocally { path: String },
    /// A missing file is refused.
    FetchFromSource { source_id: String, path: String },
    ImportFetched { replace: bool, key: Option<String> },
    ImportFile { path: String, replace: bool, key: Option<String> },
    // The steps by which a profile is opened.
    OpenDocuments { profile: String },
    /// A failure closes the session again.
    EnterProfile { profile: String, create: bool },
    /// More than one member makes the profile an established one.
    EstablishIfShared,
    /// The network is shut down and opened again with the settings as they are.
    RestartNetwork,
    /// A profile without its file key is refused.
    ReenterProfile { profile: String },
    WriteProfile { relay: Option<String>, public_relay: bool, destination: Option<Destination> },
}

/// How an action begins, before it waits for its turn.
pub struct Opening {
    pub stop_session: bool,
    pub cancel_download: bool,
    pub outcome: OpeningOutcome,
}

#[derive(Clone, Copy, Debug, PartialEq, Eq, Structural)]
pub enum OpeningOutcome {
    /// The action is done.
    Done,
    Refused(Refusal),
    /// The plan is made, after the turn has come where the action waits for one.
    Run { waits: bool },
}

impl Owner {
    /// How an action begins.
    pub open spec fn opening(&self, action: Action) -> Opening {
        Opening {
            stop_session: self.session is Some && (action is Leave || action.replaces()),
            cancel_download: action is CancelDownload || action is Leave || (
            action matches Action::Enable { enabled: false }) || action.replaces(),
            outcome: if action is CancelDownload {
                OpeningOutcome::Done
            } else if action.replaces() && self.joining {
                OpeningOutcome::Refused(Refusal::PairingInProgress)
            } else {
                OpeningOutcome::Run { waits: !(action is Control) }
            },
        }
    }

    /// Begins an action. What must not wait is done at once: transfers that the action makes
    /// pointless stop, and a second join is refused. A command for a player does not wait behind
    /// a long transfer.
    pub fn begin(&mut self, action: &Action) -> (result: Opening)
        ensures
            result == old(self).opening(*action),
            *final(self) == if action.replaces() && !old(self).joining {
                (Owner {
                    joining: true,
                    status: (Status {
                        connecting: true,
                        receiving_collection: false,
                        error: None,
                        profile_status: Notice::ConnectingDevices,
                        ..old(self).status
                    }),
                    ..*old(self)
                })
            } else {
                *old(self)
            },
    {
        let replaces: bool = match action {
            Action::Join { replace, .. } => *replace,
            _ => false,
        };
        let leaves: bool = match action {
            Action::Leave => true,
            _ => false,
        };
        let cancels: bool = match action {
            Action::CancelDownload => true,
            _ => false,
        };
        let disables: bool = match action {
            Action::Enable { enabled } => !*enabled,
            _ => false,
        };
        let waits: bool = match action {
            Action::Control { .. } => false,
            _ => true,
        };
        let stop_session = self.session.is_some() && (leaves || replaces);
        let cancel_download = cancels || leaves || disables || replaces;
        let outcome = if cancels {
            OpeningOutcome::Done
        } else if replaces && self.joining {
            OpeningOutcome::Refused(Refusal::PairingInProgress)
        } else {
            if replaces {
                self.joining = true;
                self.status.begin_joining();
            }
            OpeningOutcome::Run { waits }
        };
        Opening { stop_session, cancel_download, outcome }
    }

    /// A pairing that the user approved before needs nothing more.
    pub open spec fn already_approved(&self, action: Action) -> bool {
        action matches Action::Pair { session, approve: true } && pairs_with(
            self.status.pairing,
            session@,
        ) && self.status.pairing->0.approved
    }

    /// The message with which an action is refused when its turn comes.
    pub open spec fn refusal(&self, action: Action) -> Option<Seq<char>> {
        let no_profile = if self.session is None {
            Some(Refusal::NoProfile.message())
        } else {
            None
        };
        let disabled = if self.network_open {
            None
        } else {
            Some(Refusal::Disabled.message())
        };
        match action {
            Action::Create => if self.status.settings.profile is Some {
                Some(Refusal::AlreadyHasProfile.message())
            } else {
                None
            },
            Action::Join { replace, .. } => if replace {
                None
            } else {
                Some(Refusal::ReplaceRequired.message())
            },
            Action::Pair { .. } => if self.already_approved(action) {
                None
            } else {
                disabled
            },
            Action::CancelPairing | Action::TestConnection { .. } => disabled,
            Action::FinishSetup => if !self.status.settings.setup_pending {
                None
            } else if self.session is None {
                no_profile
            } else if self.status.settings.enabled {
                disabled
            } else {
                None
            },
            Action::Remove { .. } => if self.session is None {
                no_profile
            } else {
                disabled
            },
            Action::Network { relay: Some(relay), .. } => if url_scheme(relay@) is None {
                Some(url_error(relay@))
            } else {
                None
            },
            Action::Encoding { encoding, confirm } => if self.redownloads(encoding) && !confirm {
                Some(Refusal::RedownloadRequired.message())
            } else {
                None
            },
            Action::Export { .. } => no_profile,
            _ => None,
        }
    }

    /// Another encoding makes the media of an established profile be fetched again.
    pub open spec fn redownloads(&self, encoding: Encoding) -> bool {
        self.status.settings.encoding != encoding && self.status.settings.established
            && !self.status.settings.setup_pending
    }

    /// The destination that is asked for: a blank one stands for the profile's own folder.
    pub open spec fn destination_edit(&self, destination: Option<Destination>) -> SettingsEdit {
        if destination matches Some(destination) && !destination.blank() {
            SettingsEdit::Destination(destination)
        } else {
            match self.status.settings.profile {
                Some(profile) => SettingsEdit::OwnFolder(profile),
                None => SettingsEdit::Destination(None),
            }
        }
    }

    /// The destination concerns other devices: it is, or was, in a source.
    pub open spec fn destination_shared(&self, destination: Option<Destination>) -> bool {
        (destination matches Some(destination) && destination.remote()) || (
        self.status.settings.destination matches Some(destination) && destination.remote())
    }

    /// The steps of an action that is not refused.
    pub open spec fn steps(&self, action: Action) -> Seq<Step> {
        let settings = self.status.settings;
        let done = Step::Show(Shown::ErrorCleared);
        match action {
            Action::Enable { enabled: true } => seq![Step::Save(SettingsEdit::Enabled(true))] + (
            match settings.profile {
                Some(profile) => if self.network_open {
                    seq![]
                } else {
                    seq![
                        Step::LockSync,
                        Step::OpenProfile { profile, create: false },
                        Step::UnlockSync,
                    ]
                },
                None => seq![Step::LockSync, Step::CreateProfile, Step::UnlockSync],
            }) + seq![Step::Synchronize, done],
            Action::Enable { enabled: false } => seq![
                Step::LockSync,
                Step::Save(SettingsEdit::Enabled(false)),
                Step::CancelMediaJobs,
                Step::CloseNetwork,
                Step::Joining(false),
                Step::Show(Shown::Disabled),
                Step::UnlockSync,
                done,
            ],
            Action::Create => seq![
                Step::Save(SettingsEdit::Enabled(true)),
                Step::LockSync,
                Step::CreateProfile,
                Step::UnlockSync,
                Step::Synchronize,
                done,
            ],
            Action::Join { invitation, .. } => seq![
                Step::Joining(true),
                Step::Show(Shown::BeginJoining),
                Step::Save(SettingsEdit::Enabled(true)),
                Step::OpenNetwork,
                Step::CloseProfile,
                Step::BeginPairing { invitation },
                done,
            ],
            Action::Pair { session, approve } => if self.already_approved(action) {
                seq![]
            } else {
                seq![
                    Step::ConfirmPairing { session, approve },
                    Step::Show(Shown::PairingAnswered { session, approve }),
                ] + (if approve {
                    seq![]
                } else {
                    seq![Step::Show(Shown::EndPairing)] + (if self.joining {
                        seq![Step::RestoreAfterPairing]
                    } else {
                        seq![]
                    })
                }) + seq![done]
            },
            Action::CancelPairing => seq![Step::CancelPairing, Step::RestoreAfterPairing, done],
            Action::FinishSetup => (if settings.setup_pending {
                (if settings.enabled {
                    seq![Step::AttachDocuments]
                } else {
                    seq![]
                }) + seq![
                    Step::Save(SettingsEdit::SetupPending(false)),
                    Step::SourcesChanged,
                    Step::MediaChanged,
                    Step::Show(Shown::SetupFinished),
                ]
            } else {
                seq![]
            }) + seq![done],
            Action::Rename { name } => seq![Step::Save(SettingsEdit::Name(name))] + (
            if self.network_open {
                seq![Step::RenameNetwork { name }]
            } else {
                seq![]
            }) + seq![Step::PublishDevice, done],
            Action::Remove { peer } => seq![
                Step::RemoveMember { peer },
                Step::MakeKey,
                Step::LockSync,
                Step::InstallKey { profile: self.session->0.profile },
                Step::ShareKey,
                Step::WriteKeyAndForget { peer },
                Step::UnlockSync,
                Step::Synchronize,
                Step::RefreshDevices,
                done,
            ],
            Action::Leave => seq![Step::LockSync, Step::LeaveProfile, Step::UnlockSync, done],
            Action::Refresh => (if self.session is Some {
                seq![Step::Synchronize, Step::Exchange] + (if settings.enabled {
                    seq![Step::RefreshDevices]
                } else {
                    seq![]
                })
            } else {
                seq![]
            }) + seq![done],
            Action::Discover => seq![Step::Save(SettingsEdit::Enabled(true))] + (
            if self.network_open {
                seq![]
            } else {
                match settings.profile {
                    Some(profile) => seq![
                        Step::LockSync,
                        Step::OpenProfile { profile, create: false },
                        Step::UnlockSync,
                    ],
                    None => seq![Step::OpenNetwork],
                }
            }) + seq![done],
            Action::TestConnection { peer } => seq![Step::TestConnection { peer }, done],
            Action::Network { nearby, relay, public_relay } => (if self.session is Some {
                seq![Step::WriteNetwork { relay, public_relay }, Step::Synchronize]
            } else {
                seq![]
            }) + seq![
                Step::Save(SettingsEdit::Network { nearby, relay, public_relay }),
                Step::ConfigureNetwork,
                done,
            ],
            Action::Continue { peer } => seq![Step::ContinueFrom { peer }, done],
            Action::Control { peer, command } => seq![Step::SendControl { peer, command }, done],
            Action::Folder { source, root_id, path } => seq![
                Step::Save(SettingsEdit::Folder { source, root_id, path }),
                Step::MediaChanged,
                done,
            ],
            Action::Encoding { encoding, .. } => (if settings.encoding == encoding {
                seq![]
            } else {
                seq![Step::Save(SettingsEdit::Encoding(encoding))] + (if self.redownloads(
                    encoding,
                ) {
                    seq![Step::MediaChanged]
                } else {
                    seq![]
                })
            }) + seq![done],
            Action::Download { peer, uri } => seq![Step::Download { peer, uri }, done],
            Action::CancelDownload => seq![done],
            Action::Destination { destination } => {
                let announced = self.destination_shared(destination) && self.session is Some;
                (if announced {
                    seq![
                        Step::WriteDestination(
                            if destination matches Some(destination) && destination.remote() {
                                destination
                            } else {
                                None
                            },
                        ),
                    ]
                } else {
                    seq![]
                }) + seq![Step::Save(self.destination_edit(destination))] + (if announced {
                    seq![Step::Synchronize]
                } else {
                    seq![]
                }) + seq![done]
            },
            Action::Export { path, source_id } => seq![
                Step::ExportProfile,
                match source_id {
                    Some(source_id) => Step::StoreInSource { source_id, path },
                    None => Step::StoreLocally { path },
                },
                done,
            ],
            Action::Import { path, source_id, replace, key } => (match source_id {
                Some(source_id) => seq![
                    Step::FetchFromSource { source_id, path },
                    Step::ImportFetched { replace, key },
                ],
                None => seq![Step::ImportFile { path, replace, key }],
            }) + seq![done],
        }
    }

    /// Plans an action whose turn has come.
    pub fn execute(&self, action: &Action) -> (result: Result<Vec<Step>, String>)
        ensures
            match result {
                Ok(steps) => self.refusal(*action) is None && steps@ == self.steps(*action),
                Err(message) => self.refusal(*action) == Some(message@),
            },
    {
        if let Some(message) = self.refuse(action) {
            return Err(message);
        }
        let mut steps: Vec<Step> = Vec::new();
        match action {
            Action::Enable { enabled } => if *enabled {
                steps.push(Step::Save(SettingsEdit::Enabled(true)));
                match &self.status.settings.profile {
                    Some(profile) => if !self.network_open {
                        steps.push(Step::LockSync);
                        steps.push(Step::OpenProfile { profile: profile.clone(), create: false });
                        steps.push(Step::UnlockSync);
                    },
                    None => {
                        steps.push(Step::LockSync);
                        steps.push(Step::CreateProfile);
                        steps.push(Step::UnlockSync);
                    },
                }
                steps.push(Step::Synchronize);
            } else {
                steps.push(Step::LockSync);
                steps.push(Step::Save(SettingsEdit::Enabled(false)));
                steps.push(Step::CancelMediaJobs);
                steps.push(Step::CloseNetwork);
                steps.push(Step::Joining(false));
                steps.push(Step::Show(Shown::Disabled));
                steps.push(Step::UnlockSync);
            },
            Action::Create => {
                steps.push(Step::Save(SettingsEdit::Enabled(true)));
                steps.push(Step::LockSync);
                steps.push(Step::CreateProfile);
                steps.push(Step::UnlockSync);
                steps.push(Step::Synchronize);
            },
            Action::Join { invitation, .. } => {
                steps.push(Step::Joining(true));
                steps.push(Step::Show(Shown::BeginJoining));
                steps.push(Step::Save(SettingsEdit::Enabled(true)));
                steps.push(Step::OpenNetwork);
                steps.push(Step::CloseProfile);
                steps.push(Step::BeginPairing { invitation: invitation.clone() });
            },
            Action::Pair { session, approve } => {
                if *approve && self.status.is_approved(session.as_str()) {
                    assert(steps@ =~= self.steps(*action));
                    return Ok(steps);
                }
                steps.push(Step::ConfirmPairing { session: session.clone(), approve: *approve });
                steps.push(
                    Step::Show(
                        Shown::PairingAnswered { session: session.clone(), approve: *approve },
                    ),
                );
                if !*approve {
                    steps.push(Step::Show(Shown::EndPairing));
                    if self.joining {
                        steps.push(Step::RestoreAfterPairing);
                    }
                }
            },
            Action::CancelPairing => {
                steps.push(Step::CancelPairing);
                steps.push(Step::RestoreAfterPairing);
            },
            Action::FinishSetup => if self.status.settings.setup_pending {
                if self.status.settings.enabled {
                    steps.push(Step::AttachDocuments);
                }
                steps.push(Step::Save(SettingsEdit::SetupPending(false)));
                steps.push(Step::SourcesChanged);
                steps.push(Step::MediaChanged);
                steps.push(Step::Show(Shown::SetupFinished));
            },
            Action::Rename { name } => {
                steps.push(Step::Save(SettingsEdit::Name(name.clone())));
                if self.network_open {
                    steps.push(Step::RenameNetwork { name: name.clone() });
                }
                steps.push(Step::PublishDevice);
            },
            Action::Remove { peer } => {
                steps.push(Step::RemoveMember { peer: peer.clone() });
                steps.push(Step::MakeKey);
                steps.push(Step::LockSync);
                if let Some(session) = &self.session {
                    steps.push(Step::InstallKey { profile: session.profile.clone() });
                }
                steps.push(Step::ShareKey);
                steps.push(Step::WriteKeyAndForget { peer: peer.clone() });
                steps.push(Step::UnlockSync);
                steps.push(Step::Synchronize);
                steps.push(Step::RefreshDevices);
            },
            Action::Leave => {
                steps.push(Step::LockSync);
                steps.push(Step::LeaveProfile);
                steps.push(Step::UnlockSync);
            },
            Action::Refresh => if self.session.is_some() {
                steps.push(Step::Synchronize);
                steps.push(Step::Exchange);
                if self.status.settings.enabled {
                    steps.push(Step::RefreshDevices);
                }
            },
            Action::Discover => {
                steps.push(Step::Save(SettingsEdit::Enabled(true)));
                if !self.network_open {
                    match &self.status.settings.profile {
                        Some(profile) => {
                            steps.push(Step::LockSync);
                            steps.push(
                                Step::OpenProfile { profile: profile.clone(), create: false },
                            );
                            steps.push(Step::UnlockSync);
                        },
                        None => {
                            steps.push(Step::OpenNetwork);
                        },
                    }
                }
            },
            Action::TestConnection { peer } => {
                steps.push(Step::TestConnection { peer: peer.clone() });
            },
            Action::Network { nearby, relay, public_relay } => {
                if self.session.is_some() {
                    steps.push(
                        Step::WriteNetwork {
                            relay: exact_option(relay),
                            public_relay: *public_relay,
                        },
                    );
                    steps.push(Step::Synchronize);
                }
                steps.push(
                    Step::Save(
                        SettingsEdit::Network {
                            nearby: *nearby,
                            relay: exact_option(relay),
                            public_relay: *public_relay,
                        },
                    ),
                );
                steps.push(Step::ConfigureNetwork);
            },
            Action::Continue { peer } => {
                steps.push(Step::ContinueFrom { peer: peer.clone() });
            },
            Action::Control { peer, command } => {
                steps.push(Step::SendControl { peer: peer.clone(), command: *command });
            },
            Action::Folder { source, root_id, path } => {
                steps.push(
                    Step::Save(
                        SettingsEdit::Folder {
                            source: source.clone(),
                            root_id: exact_option(root_id),
                            path: path.clone(),
                        },
                    ),
                );
                steps.push(Step::MediaChanged);
            },
            Action::Encoding { encoding, .. } => if self.status.settings.encoding != *encoding {
                steps.push(Step::Save(SettingsEdit::Encoding(*encoding)));
                if self.fetches_again(*encoding) {
                    steps.push(Step::MediaChanged);
                }
            },
            Action::Download { peer, uri } => {
                steps.push(Step::Download { peer: peer.clone(), uri: uri.clone() });
            },
            Action::CancelDownload => {},
            Action::Destination { destination } => {
                self.plan_destination(destination, &mut steps);
            },
            Action::Export { path, source_id } => {
                steps.push(Step::ExportProfile);
                match source_id {
                    Some(source_id) => steps.push(
                        Step::StoreInSource { source_id: source_id.clone(), path: path.clone() },
                    ),
                    None => steps.push(Step::StoreLocally { path: path.clone() }),
                }
            },
            Action::Import { path, source_id, replace, key } => match source_id {
                Some(source_id) => {
                    steps.push(
                        Step::FetchFromSource { source_id: source_id.clone(), path: path.clone() },
                    );
                    steps.push(Step::ImportFetched { replace: *replace, key: exact_option(key) });
                },
                None => {
                    steps.push(
                        Step::ImportFile {
                            path: path.clone(),
                            replace: *replace,
                            key: exact_option(key),
                        },
                    );
                },
            },
        }
        steps.push(Step::Show(Shown::ErrorCleared));
        assert(steps@ =~= self.steps(*action));
        Ok(steps)
    }

    /// The steps that follow when the plan of an action failed.
    pub open spec fn recovery_steps(action: Action) -> Seq<Step> {
        if action is Join {
            seq![Step::RestoreAfterPairing]
        } else {
            seq![]
        }
    }

    /// The steps that follow when a plan failed, before the failure is reported: a device that did
    /// not get to pair goes back to the profile it had.
    pub fn recovery(action: &Action) -> (steps: Vec<Step>)
        ensures
            steps@ == Self::recovery_steps(*action),
    {
        let mut steps: Vec<Step> = Vec::new();
        match action {
            Action::Join { .. } => {
                steps.push(Step::RestoreAfterPairing);
            },
            _ => {},
        }
        assert(steps@ =~= Self::recovery_steps(*action));
        steps
    }

    /// The steps that bring an open network in line with the settings. `matches` says whether it is
    /// so already; the ways of reaching other devices are fixed while a network is open.
    pub open spec fn configure_steps(&self, matches: bool) -> Seq<Step> {
        if !self.network_open || matches {
            seq![]
        } else {
            seq![Step::RestartNetwork] + (match self.session {
                Some(session) => seq![Step::ReenterProfile { profile: session.profile }] + (
                if self.status.settings.setup_pending {
                    seq![]
                } else {
                    seq![Step::AttachDocuments]
                }),
                None => seq![],
            })
        }
    }

    pub fn configure_network(&self, matches: bool) -> (steps: Vec<Step>)
        ensures
            steps@ == self.configure_steps(matches),
    {
        let mut steps: Vec<Step> = Vec::new();
        if self.network_open && !matches {
            steps.push(Step::RestartNetwork);
            if let Some(session) = &self.session {
                steps.push(Step::ReenterProfile { profile: session.profile.clone() });
                if !self.status.settings.setup_pending {
                    steps.push(Step::AttachDocuments);
                }
            }
        }
        assert(steps@ =~= self.configure_steps(matches));
        steps
    }

    fn fetches_again(&self, encoding: Encoding) -> (result: bool)
        ensures
            result == self.redownloads(encoding),
    {
        self.status.settings.encoding != encoding && self.status.settings.established
            && !self.status.settings.setup_pending
    }

    fn plan_destination(&self, destination: &Option<Destination>, steps: &mut Vec<Step>)
        requires
            old(steps)@.len() == 0,
        ensures
            final(steps)@.push(Step::Show(Shown::ErrorCleared)) == self.steps(
                (Action::Destination { destination: *destination }),
            ),
    {
        let asked: bool = match destination {
            Some(destination) => destination.is_remote(),
            None => false,
        };
        let current: bool = match &self.status.settings.destination {
            Some(destination) => destination.is_remote(),
            None => false,
        };
        let announced = (asked || current) && self.session.is_some();
        if announced {
            steps.push(
                Step::WriteDestination(
                    if asked {
                        copy_destination(destination)
                    } else {
                        None
                    },
                ),
            );
        }
        let blank: bool = match destination {
            Some(destination) => destination.is_blank(),
            None => true,
        };
        if !blank {
            steps.push(Step::Save(SettingsEdit::Destination(copy_destination(destination))));
        } else {
            match &self.status.settings.profile {
                Some(profile) => steps.push(Step::Save(SettingsEdit::OwnFolder(profile.clone()))),
                None => steps.push(Step::Save(SettingsEdit::Destination(None))),
            }
        }
        if announced {
            steps.push(Step::Synchronize);
        }
        assert(steps@.push(Step::Show(Shown::ErrorCleared)) =~= self.steps(
            (Action::Destination { destination: *destination }),
        ));
    }

    fn refuse(&self, action: &Action) -> (result: Option<String>)
        ensures
            match result {
                Some(message) => self.refusal(*action) == Some(message@),
                None => self.refusal(*action) is None,
            },
    {
        let reason: Option<Refusal> = match action {
            Action::Create => if self.status.settings.profile.is_some() {
                Some(Refusal::AlreadyHasProfile)
            } else {
                None
            },
            Action::Join { replace, .. } => if *replace {
                None
            } else {
                Some(Refusal::ReplaceRequired)
            },
            Action::Pair { session, approve } => if (*approve && self.status.is_approved(
                session.as_str(),
            )) || self.network_open {
                None
            } else {
                Some(Refusal::Disabled)
            },
            Action::CancelPairing => if self.network_open {
                None
            } else {
                Some(Refusal::Disabled)
            },
            Action::TestConnection { .. } => if self.network_open {
                None
            } else {
                Some(Refusal::Disabled)
            },
            Action::FinishSetup => if !self.status.settings.setup_pending {
                None
            } else if self.session.is_none() {
                Some(Refusal::NoProfile)
            } else if self.status.settings.enabled && !self.network_open {
                Some(Refusal::Disabled)
            } else {
                None
            },
            Action::Remove { .. } => if self.session.is_none() {
                Some(Refusal::NoProfile)
            } else if !self.network_open {
                Some(Refusal::Disabled)
            } else {
                None
            },
            Action::Network { relay, .. } => {
                if let Some(relay) = relay {
                    return match parse_url(relay.as_str()) {
                        Ok(_) => None,
                        Err(message) => Some(message),
                    };
                }
                None
            },
            Action::Encoding { encoding, confirm } => if self.fetches_again(*encoding) && !*confirm {
                Some(Refusal::RedownloadRequired)
            } else {
                None
            },
            Action::Export { .. } => if self.session.is_none() {
                Some(Refusal::NoProfile)
            } else {
                None
            },
            _ => None,
        };
        match reason {
            Some(reason) => Some(reason.text().to_owned()),
            None => None,
        }
    }
}

/// Whether a step takes the lock on synchronization by itself.
pub open spec fn takes_sync(step: Step) -> bool {
    step is Synchronize || step is Exchange || step is RefreshDevices || step is RestoreAfterPairing
        || step is ReopenProfile || step is ExportProfile || step is ImportFetched
        || step is ImportFile
}

/// Whether the steps can be made from a state in which the lock is held or not: it is never taken
/// twice, what takes it by itself finds it free, and it is free in the end.
pub open spec fn locks_well(steps: Seq<Step>, held: bool) -> bool
    decreases steps.len(),
{
    if steps.len() == 0 {
        !held
    } else if steps[0] is LockSync {
        !held && locks_well(steps.drop_first(), true)
    } else if steps[0] is UnlockSync {
        held && locks_well(steps.drop_first(), false)
    } else {
        !(held && takes_sync(steps[0])) && locks_well(steps.drop_first(), held)
    }
}

/// Steps that leave the lock alone.
spec fn lock_free(steps: Seq<Step>) -> bool {
    forall|i: int|
        0 <= i < steps.len() ==> !(#[trigger] steps[i] is LockSync) && !(steps[i] is UnlockSync)
}

proof fn lock_free_locks_well(steps: Seq<Step>)
    requires
        lock_free(steps),
    ensures
        locks_well(steps, false),
    decreases steps.len(),
{
    if steps.len() > 0 {
        assert(lock_free(steps.drop_first()));
        lock_free_locks_well(steps.drop_first());
    }
}

proof fn locked_locks_well(inner: Seq<Step>)
    requires
        lock_free(inner),
        forall|i: int| 0 <= i < inner.len() ==> !takes_sync(#[trigger] inner[i]),
    ensures
        locks_well(inner.push(Step::UnlockSync), true),
        locks_well(seq![Step::LockSync] + inner.push(Step::UnlockSync), false),
    decreases inner.len(),
{
    let closed = inner.push(Step::UnlockSync);
    if inner.len() == 0 {
        assert(closed.drop_first() =~= Seq::<Step>::empty());
        reveal_with_fuel(locks_well, 2);
    } else {
        let rest = inner.drop_first();
        assert(lock_free(rest));
        locked_locks_well(rest);
        assert(closed.drop_first() =~= rest.push(Step::UnlockSync));
        assert(closed[0] == inner[0]);
    }
    let whole = seq![Step::LockSync] + closed;
    assert(whole.drop_first() =~= closed);
    assert(whole[0] == Step::LockSync);
}

proof fn locks_well_joined(a: Seq<Step>, b: Seq<Step>, held: bool)
    requires
        locks_well(a, held),
        locks_well(b, false),
    ensures
        locks_well(a + b, held),
    decreases a.len(),
{
    if a.len() == 0 {
        assert(a + b =~= b);
    } else {
        assert((a + b).drop_first() =~= a.drop_first() + b);
        assert((a + b)[0] == a[0]);
        let after = if a[0] is LockSync {
            true
        } else if a[0] is UnlockSync {
            false
        } else {
            held
        };
        locks_well_joined(a.drop_first(), b, after);
    }
}

proof fn three_parts_lock_well(before: Seq<Step>, inner: Seq<Step>, after: Seq<Step>)
    requires
        lock_free(before),
        lock_free(inner),
        lock_free(after),
        forall|i: int| 0 <= i < inner.len() ==> !takes_sync(#[trigger] inner[i]),
    ensures
        locks_well(before + (seq![Step::LockSync] + inner.push(Step::UnlockSync)) + after, false),
{
    lock_free_locks_well(before);
    lock_free_locks_well(after);
    locked_locks_well(inner);
    locks_well_joined(before, seq![Step::LockSync] + inner.push(Step::UnlockSync), false);
    locks_well_joined(
        before + (seq![Step::LockSync] + inner.push(Step::UnlockSync)),
        after,
        false,
    );
}

/// No plan takes the lock on synchronization while it holds it, and every plan gives it back: an
/// action never waits for itself.
#[verifier::rlimit(60)]
#[verifier::spinoff_prover]
pub proof fn plans_never_wait_for_themselves(owner: Owner, action: Action)
    ensures
        locks_well(owner.steps(action), false),
{
    let steps = owner.steps(action);
    let done = Step::Show(Shown::ErrorCleared);
    let switched = Step::Save(SettingsEdit::Enabled(true));
    match action {
        Action::Enable { enabled: true } => {
            match owner.status.settings.profile {
                Some(profile) => if owner.network_open {
                    lock_free_locks_well(steps);
                } else {
                    let inner = seq![Step::OpenProfile { profile, create: false }];
                    three_parts_lock_well(seq![switched], inner, seq![Step::Synchronize, done]);
                    assert(steps =~= seq![switched] + (seq![Step::LockSync] + inner.push(
                        Step::UnlockSync,
                    )) + seq![Step::Synchronize, done]);
                },
                None => {
                    let inner = seq![Step::CreateProfile];
                    three_parts_lock_well(seq![switched], inner, seq![Step::Synchronize, done]);
                    assert(steps =~= seq![switched] + (seq![Step::LockSync] + inner.push(
                        Step::UnlockSync,
                    )) + seq![Step::Synchronize, done]);
                },
            }
        },
        Action::Enable { enabled: false } => {
            let inner = seq![
                Step::Save(SettingsEdit::Enabled(false)),
                Step::CancelMediaJobs,
                Step::CloseNetwork,
                Step::Joining(false),
                Step::Show(Shown::Disabled),
            ];
            three_parts_lock_well(seq![], inner, seq![done]);
            assert(steps =~= Seq::<Step>::empty() + (seq![Step::LockSync] + inner.push(
                Step::UnlockSync,
            )) + seq![done]);
        },
        Action::Create => {
            let inner = seq![Step::CreateProfile];
            three_parts_lock_well(seq![switched], inner, seq![Step::Synchronize, done]);
            assert(steps =~= seq![switched] + (seq![Step::LockSync] + inner.push(Step::UnlockSync))
                + seq![Step::Synchronize, done]);
        },
        Action::Remove { peer } => {
            let before = seq![Step::RemoveMember { peer }, Step::MakeKey];
            let inner = seq![
                Step::InstallKey { profile: owner.session->0.profile },
                Step::ShareKey,
                Step::WriteKeyAndForget { peer },
            ];
            let after = seq![Step::Synchronize, Step::RefreshDevices, done];
            three_parts_lock_well(before, inner, after);
            assert(steps =~= before + (seq![Step::LockSync] + inner.push(Step::UnlockSync))
                + after);
        },
        Action::Leave => {
            let inner = seq![Step::LeaveProfile];
            three_parts_lock_well(seq![], inner, seq![done]);
            assert(steps =~= Seq::<Step>::empty() + (seq![Step::LockSync] + inner.push(
                Step::UnlockSync,
            )) + seq![done]);
        },
        Action::Discover => {
            match owner.status.settings.profile {
                Some(profile) => if owner.network_open {
                    lock_free_locks_well(steps);
                } else {
                    let inner = seq![Step::OpenProfile { profile, create: false }];
                    three_parts_lock_well(seq![switched], inner, seq![done]);
                    assert(steps =~= seq![switched] + (seq![Step::LockSync] + inner.push(
                        Step::UnlockSync,
                    )) + seq![done]);
                },
                None => {
                    lock_free_locks_well(steps);
                },
            }
        },
        _ => {
            lock_free_locks_well(steps);
        },
    }
}

/// Every plan with steps ends by clearing the last error; the one plan without steps is that of a
/// pairing which was approved before.
pub proof fn plans_end_by_clearing_the_error(owner: Owner, action: Action)
    ensures
        owner.steps(action).len() == 0 <==> owner.already_approved(action),
        owner.steps(action).len() > 0 ==> owner.steps(action).last() == Step::Show(
            Shown::ErrorCleared,
        ),
{
}

/// A device's data is given up only with consent: no plan of a join that does not ask for the
/// replacement is ever made.
pub proof fn joining_needs_consent(owner: Owner, invitation: String)
    ensures
        owner.refusal((Action::Join { invitation, replace: false })) == Some(
            Refusal::ReplaceRequired.message(),
        ),
        owner.refusal((Action::Join { invitation, replace: true })) is None,
{
}

impl Owner {
    /// Makes a change of the shown state.
    pub fn show(&mut self, shown: Shown)
        requires
            old(self).status.completed_pairings < u64::MAX,
        ensures
            shown_after(old(self).status, shown, final(self).status),
            *final(self) == (Owner { status: final(self).status, ..*old(self) }),
    {
        match shown {
            Shown::BeginJoining => self.status.begin_joining(),
            Shown::Disabled => self.status.disabled(),
            Shown::Left => self.status.left(),
            Shown::PairingAnswered { session, approve } => self.status.pairing_answered(
                session.as_str(),
                approve,
            ),
            Shown::EndPairing => self.status.end_pairing(),
            Shown::SetupFinished => self.status.setup_finished(),
            Shown::AwaitSetup => self.status.await_setup(),
            Shown::ErrorCleared => self.status.clear_error(),
        }
    }

    /// The steps by which a device leaves its profile.
    pub open spec fn leave_steps() -> Seq<Step> {
        seq![
            Step::Capture(false),
            Step::StopSession,
            Step::CloseNetwork,
            Step::Joining(false),
            Step::Save(SettingsEdit::Left),
            Step::Show(Shown::Left),
        ]
    }

    pub fn leave_profile() -> (steps: Vec<Step>)
        ensures
            steps@ == Self::leave_steps(),
    {
        let mut steps: Vec<Step> = Vec::new();
        steps.push(Step::Capture(false));
        steps.push(Step::StopSession);
        steps.push(Step::CloseNetwork);
        steps.push(Step::Joining(false));
        steps.push(Step::Save(SettingsEdit::Left));
        steps.push(Step::Show(Shown::Left));
        assert(steps@ =~= Self::leave_steps());
        steps
    }

    /// The steps by which the profile from before a pairing comes back.
    pub open spec fn restore_steps() -> Seq<Step> {
        seq![
            Step::Save(SettingsEdit::SetupPending(false)),
            Step::ReopenProfile,
            Step::Joining(false),
            Step::Show(Shown::EndPairing),
        ]
    }

    /// The steps by which the profile from before a pairing comes back. A failure to reopen it is
    /// reported after the last step.
    pub fn restore_after_pairing() -> (steps: Vec<Step>)
        ensures
            steps@ == Self::restore_steps(),
    {
        let mut steps: Vec<Step> = Vec::new();
        steps.push(Step::Save(SettingsEdit::SetupPending(false)));
        steps.push(Step::ReopenProfile);
        steps.push(Step::Joining(false));
        steps.push(Step::Show(Shown::EndPairing));
        assert(steps@ =~= Self::restore_steps());
        steps
    }

    pub open spec fn reopen_steps(&self) -> Seq<Step> {
        seq![Step::LockSync] + (if self.network_open {
            seq![Step::CloseProfile]
        } else {
            seq![]
        }) + seq![Step::StopSession] + (match self.status.settings.profile {
            Some(profile) => seq![Step::OpenProfile { profile, create: false }],
            None => seq![],
        }) + seq![Step::Joining(false), Step::UnlockSync]
    }

    /// The steps by which the remembered profile is opened afresh.
    pub fn reopen_profile(&self) -> (steps: Vec<Step>)
        ensures
            steps@ == self.reopen_steps(),
    {
        let mut steps: Vec<Step> = Vec::new();
        steps.push(Step::LockSync);
        if self.network_open {
            steps.push(Step::CloseProfile);
        }
        steps.push(Step::StopSession);
        if let Some(profile) = &self.status.settings.profile {
            steps.push(Step::OpenProfile { profile: profile.clone(), create: false });
        }
        steps.push(Step::Joining(false));
        steps.push(Step::UnlockSync);
        assert(steps@ =~= self.reopen_steps());
        steps
    }

    /// The steps from the file key to the open documents.
    pub open spec fn unlock_steps(&self, profile: String, key_found: bool) -> Seq<Step> {
        (if key_found {
            if self.status.settings.knows_profile(profile@) {
                seq![]
            } else {
                seq![Step::Save(SettingsEdit::FileProfile(profile))]
            }
        } else {
            seq![Step::MakeKey, Step::InstallKey { profile }]
        }) + seq![Step::OpenDocuments { profile }]
    }

    /// The steps by which an open profile goes on the network, while Connect is on.
    pub open spec fn enter_steps(&self, profile: String, create: bool) -> Seq<Step> {
        let settings = self.status.settings;
        if settings.enabled {
            seq![Step::OpenNetwork, Step::EnterProfile { profile, create }] + (
            if settings.setup_pending {
                seq![]
            } else {
                seq![Step::AttachDocuments]
            }) + (if settings.established {
                seq![]
            } else {
                seq![Step::EstablishIfShared]
            })
        } else {
            seq![]
        }
    }

    /// The step that writes what a new profile shares.
    pub open spec fn profile_record(&self) -> Step {
        let settings = self.status.settings;
        Step::WriteProfile {
            relay: settings.relay,
            public_relay: settings.public_relay,
            destination: if settings.destination matches Some(destination) && destination.remote() {
                settings.destination
            } else {
                None
            },
        }
    }

    /// The steps that remember an opened profile.
    pub open spec fn remember_steps(&self, profile: String) -> Seq<Step> {
        let settings = self.status.settings;
        seq![Step::Capture(true)] + (if self.joining {
            seq![]
        } else {
            seq![Step::Save(SettingsEdit::Profile(profile))]
        }) + (if settings.destination is None || settings.destination->0.blank() {
            seq![Step::Save(SettingsEdit::OwnFolder(profile))]
        } else {
            seq![]
        }) + (if settings.setup_pending {
            seq![Step::Show(Shown::AwaitSetup)]
        } else {
            seq![]
        })
    }

    /// The steps by which a profile is opened, for a profile whose key is at hand or is made.
    pub open spec fn open_steps(&self, profile: String, create: bool, key_found: bool) -> Seq<Step> {
        self.unlock_steps(profile, key_found) + self.enter_steps(profile, create) + (if create {
            seq![self.profile_record(), Step::PublishDevice]
        } else {
            seq![]
        }) + self.remember_steps(profile)
    }

    fn push_unlock(&self, profile: &String, key_found: bool, steps: &mut Vec<Step>)
        ensures
            final(steps)@ == old(steps)@ + self.unlock_steps(*profile, key_found),
    {
        let ghost before = steps@;
        if key_found {
            if !self.status.settings.has_file_profile(profile.as_str()) {
                steps.push(Step::Save(SettingsEdit::FileProfile(profile.clone())));
            }
        } else {
            steps.push(Step::MakeKey);
            steps.push(Step::InstallKey { profile: profile.clone() });
        }
        steps.push(Step::OpenDocuments { profile: profile.clone() });
        assert(steps@ =~= before + self.unlock_steps(*profile, key_found));
    }

    fn push_enter(&self, profile: &String, create: bool, steps: &mut Vec<Step>)
        ensures
            final(steps)@ == old(steps)@ + self.enter_steps(*profile, create),
    {
        let ghost before = steps@;
        let settings = &self.status.settings;
        if settings.enabled {
            steps.push(Step::OpenNetwork);
            steps.push(Step::EnterProfile { profile: profile.clone(), create });
            if !settings.setup_pending {
                steps.push(Step::AttachDocuments);
            }
            if !settings.established {
                steps.push(Step::EstablishIfShared);
            }
        }
        assert(steps@ =~= before + self.enter_steps(*profile, create));
    }

    fn push_remember(&self, profile: &String, steps: &mut Vec<Step>)
        ensures
            final(steps)@ == old(steps)@ + self.remember_steps(*profile),
    {
        let ghost before = steps@;
        let settings = &self.status.settings;
        steps.push(Step::Capture(true));
        if !self.joining {
            steps.push(Step::Save(SettingsEdit::Profile(profile.clone())));
        }
        let blank: bool = match &settings.destination {
            Some(destination) => destination.is_blank(),
            None => true,
        };
        if blank {
            steps.push(Step::Save(SettingsEdit::OwnFolder(profile.clone())));
        }
        if settings.setup_pending {
            steps.push(Step::Show(Shown::AwaitSetup));
        }
        assert(steps@ =~= before + self.remember_steps(*profile));
    }

    /// Plans the opening of a profile, once the device's identity is known. Without its file key
    /// only a new profile can be opened.
    pub fn open(&self, profile: &String, create: bool, key_found: bool) -> (result: Result<
        Vec<Step>,
        Refusal,
    >)
        ensures
            match result {
                Ok(steps) => (key_found || create) && steps@ == self.open_steps(
                    *profile,
                    create,
                    key_found,
                ),
                Err(reason) => !key_found && !create && reason == Refusal::PairAgain,
            },
    {
        if !key_found && !create {
            return Err(Refusal::PairAgain);
        }
        let settings = &self.status.settings;
        let mut steps: Vec<Step> = Vec::new();
        self.push_unlock(profile, key_found, &mut steps);
        self.push_enter(profile, create, &mut steps);
        if create {
            let remote: bool = match &settings.destination {
                Some(destination) => destination.is_remote(),
                None => false,
            };
            steps.push(
                Step::WriteProfile {
                    relay: exact_option(&settings.relay),
                    public_relay: settings.public_relay,
                    destination: if remote {
                        copy_destination(&settings.destination)
                    } else {
                        None
                    },
                },
            );
            steps.push(Step::PublishDevice);
        }
        self.push_remember(profile, &mut steps);
        assert(steps@ =~= self.open_steps(*profile, create, key_found));
        Ok(steps)
    }
}

/// The shown state `after` is the state `before` with the change made.
pub open spec fn shown_after(before: Status, shown: Shown, after: Status) -> bool {
    match shown {
        Shown::BeginJoining => after == (Status {
            connecting: true,
            receiving_collection: false,
            error: None,
            profile_status: Notice::ConnectingDevices,
            ..before
        }),
        Shown::Disabled => {
            &&& after.devices@ == offline(before.devices@)
            &&& after == (Status {
                devices: after.devices,
                pairing: None,
                connecting: false,
                receiving_collection: false,
                invitation: None,
                profile_status: Notice::NotEnabled,
                ..before
            })
        },
        Shown::Left => {
            &&& after.devices@.len() == 0
            &&& after == (Status {
                devices: after.devices,
                pairing: None,
                connecting: false,
                receiving_collection: false,
                invitation: None,
                identity: None,
                profile_status: Notice::NotEnabled,
                ..before
            })
        },
        Shown::PairingAnswered { session, approve } => after == (Status {
            pairing: if pairs_with(before.pairing, session@) {
                Some(Pairing { approved: approve, ..before.pairing->0 })
            } else {
                before.pairing
            },
            ..before
        }),
        Shown::EndPairing => after == (Status { pairing: None, connecting: false, ..before }),
        Shown::SetupFinished => after == (Status {
            completed_pairings: (before.completed_pairings + 1) as u64,
            receiving_collection: true,
            profile_status: Notice::ReceivingCollection,
            ..before
        }),
        Shown::AwaitSetup => after == (Status {
            profile_status: Notice::SetUpThisDevice,
            ..before
        }),
        Shown::ErrorCleared => after == (Status { error: None, ..before }),
    }
}

/// A device that has left forgets its profile and the devices of it, and is switched off.
pub proof fn leaving_forgets_the_profile(
    style: PathStyle,
    before: Status,
    saved: Status,
    after: Status,
    directory: Seq<char>,
)
    requires
        edited(style, before.settings, SettingsEdit::Left, directory, saved.settings),
        shown_after(saved, Shown::Left, after),
    ensures
        after.settings.profile is None,
        !after.settings.enabled && !after.settings.adopting && !after.settings.established,
        !after.settings.setup_pending,
        after.settings.destination is None,
        after.devices@.len() == 0,
        after.identity is None && after.invitation is None && after.pairing is None,
        after.profile_status == Notice::NotEnabled,
        after.settings.name == before.settings.name,
        after.settings.file_profiles == before.settings.file_profiles,
        after.settings.folders == before.settings.folders,
{
}

/// A copy of an optional text.
pub fn exact_option(text: &Option<String>) -> (result: Option<String>)
    ensures
        result == *text,
{
    match text {
        Some(text) => Some(text.clone()),
        None => None,
    }
}

/// What an action makes pointless stops at once: the session of a device that leaves its profile or
/// gives it up for another, and the download of one that does so, is switched off or is asked to. A
/// second join is refused while the first goes on; no other action is, and only a command for a
/// player does not wait for its turn.
pub proof fn actions_stop_what_they_make_pointless(owner: Owner, action: Action)
    ensures
        ({
            let gives_up = action is Leave || (action matches Action::Join { replace, .. } && replace);
            let opening = owner.opening(action);
            &&& opening.stop_session <==> gives_up && owner.session is Some
            &&& opening.cancel_download <==> gives_up || action is CancelDownload || (
            action matches Action::Enable { enabled } && !enabled)
            &&& opening.outcome == OpeningOutcome::Done <==> action is CancelDownload
            &&& opening.outcome is Refused <==> (action matches Action::Join { replace, .. }
                && replace) && owner.joining
            &&& opening.outcome matches OpeningOutcome::Refused(reason) ==> reason
                == Refusal::PairingInProgress
            &&& opening.outcome matches OpeningOutcome::Run { waits } ==> waits == !(
            action is Control)
        }),
{
}

} // verus!
