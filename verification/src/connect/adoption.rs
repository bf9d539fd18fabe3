//! Reading profile files: which keys are tried, and what is done with the profile found.

use vstd::prelude::*;

use crate::connect::owner::{Owner, Refusal, Session};
use crate::connect::portable::{age_key_error, key_error};
use crate::connect::settings::{ConnectSettings, SettingsEdit};
use crate::text::same;

verus! {

/// The profiles whose keys are tried: those with a file key, and the open one.
pub open spec fn profiles_tried(settings: ConnectSettings, current: Option<Session>) -> Seq<String> {
    if current matches Some(session) && !settings.knows_profile(session.profile@) {
        settings.file_profiles@.push(current->0.profile)
    } else {
        settings.file_profiles@
    }
}

impl Owner {
    pub fn profiles_to_try(&self) -> (result: Vec<String>)
        ensures
            result@ == profiles_tried(self.status.settings, self.session),
    {
        let mut profiles: Vec<String> = Vec::new();
        let known = &self.status.settings.file_profiles;
        let mut i: usize = 0;
        while i < known.len()
            invariant
                i <= known@.len(),
                profiles@ =~= known@.take(i as int),
            decreases known@.len() - i,
        {
            profiles.push(known[i].clone());
            i += 1;
        }
        assert(known@.take(i as int) =~= known@);
        if let Some(session) = &self.session {
            if !self.status.settings.has_file_profile(session.profile.as_str()) {
                profiles.push(session.profile.clone());
            }
        }
        profiles
    }
}

/// The keys of a profile: the one in use and the earlier ones.
pub struct ProfileKeys {
    pub current: Option<String>,
    pub previous: Vec<String>,
}

/// All keys of the profiles, in order.
pub open spec fn keys_of(list: Seq<ProfileKeys>) -> Seq<String>
    decreases list.len(),
{
    if list.len() == 0 {
        seq![]
    } else {
        let keys = list.last();
        keys_of(list.drop_last()) + (match keys.current {
            Some(key) => seq![key],
            None => seq![],
        }) + keys.previous@
    }
}

/// The keys with which a file is opened: the one that was given, or all that are stored.
pub fn file_keys(explicit: &Option<String>, stored: &Vec<ProfileKeys>) -> (result: Result<
    Vec<String>,
    Refusal,
>)
    ensures
        match result {
            Ok(keys) => match explicit {
                Some(key) => keys@ == seq![*key],
                None => keys@ == keys_of(stored@) && keys@.len() > 0,
            },
            Err(reason) => explicit is None && keys_of(stored@).len() == 0 && reason
                == Refusal::PairForAccess,
        },
{
    let mut keys: Vec<String> = Vec::new();
    if let Some(key) = explicit {
        keys.push(key.clone());
        assert(keys@ =~= seq![*key]);
        return Ok(keys);
    }
    let mut i: usize = 0;
    while i < stored.len()
        invariant
            i <= stored@.len(),
            keys@ == keys_of(stored@.take(i as int)),
        decreases stored@.len() - i,
    {
        let ghost before = keys@;
        proof {
            assert(stored@.take(i + 1).drop_last() =~= stored@.take(i as int));
            assert(stored@.take(i + 1).last() == stored@[i as int]);
        }
        let profile = &stored[i];
        if let Some(key) = &profile.current {
            keys.push(key.clone());
        }
        let ghost middle = keys@;
        let mut j: usize = 0;
        while j < profile.previous.len()
            invariant
                j <= profile.previous@.len(),
                keys@ =~= middle + profile.previous@.take(j as int),
            decreases profile.previous@.len() - j,
        {
            keys.push(profile.previous[j].clone());
            j += 1;
        }
        assert(profile.previous@.take(j as int) =~= profile.previous@);
        assert(keys@ =~= keys_of(stored@.take(i + 1)));
        i += 1;
    }
    assert(stored@.take(i as int) =~= stored@);
    if keys.len() == 0 {
        return Err(Refusal::PairForAccess);
    }
    Ok(keys)
}

/// One step of reading a profile file.
pub enum ImportStep {
    /// The documents of the profile are opened beside those in use.
    StageDocuments { profile: String },
    /// The whole snapshot replaces the staged documents, or nothing does.
    ReplaceSnapshot,
    Joining(bool),
    InstallKey { profile: String, key: String },
    Save(SettingsEdit),
    CloseProfile,
    StopSession,
    OpenProfile { profile: String },
    FinishAdoption,
    /// The settings of this device are written to the profile.
    WriteSettings,
    /// What changed in the collection is written to the profile, until nothing is left.
    CaptureAll,
    UnlockSync,
    ImportSnapshot,
    LockSync,
    /// Done only while the session that was read for is still open.
    ProjectSession,
}

impl Owner {
    /// The profile would take the place of another.
    pub open spec fn adopts(&self, profile: Seq<char>) -> bool {
        !(self.session matches Some(session) && session.profile@ == profile)
    }

    /// Why a profile that was read is refused.
    pub open spec fn import_refusal(
        &self,
        profile: Seq<char>,
        key: Option<String>,
        expected: Option<Seq<char>>,
        replace: bool,
    ) -> Option<Refusal> {
        if key is None {
            Some(Refusal::KeyUnavailable)
        } else if expected matches Some(wanted) && wanted != profile {
            Some(Refusal::WrongProfile)
        } else if self.adopts(profile) && !replace {
            Some(Refusal::ReplaceRequired)
        } else {
            None
        }
    }

    /// The steps that follow. A profile that takes the place of another, or whose adoption was cut
    /// short, replaces the collection; else the file is merged into the open profile.
    pub open spec fn import_steps(&self, profile: String, key: String, paired: bool) -> Seq<
        ImportStep,
    > {
        if self.adopts(profile@) || self.status.settings.adopting {
            seq![
                ImportStep::StageDocuments { profile },
                ImportStep::ReplaceSnapshot,
                ImportStep::Joining(true),
                ImportStep::InstallKey { profile, key },
                ImportStep::Save(SettingsEdit::Adopting(profile)),
            ] + (if self.network_open {
                seq![ImportStep::CloseProfile]
            } else {
                seq![]
            }) + seq![
                ImportStep::StopSession,
                ImportStep::OpenProfile { profile },
                ImportStep::FinishAdoption,
            ] + (if paired {
                seq![]
            } else {
                seq![ImportStep::Joining(false)]
            })
        } else {
            seq![
                ImportStep::WriteSettings,
                ImportStep::CaptureAll,
                ImportStep::UnlockSync,
                ImportStep::ImportSnapshot,
                ImportStep::LockSync,
                ImportStep::ProjectSession,
            ]
        }
    }

    /// Plans what is done with a profile that was read. `key` is its file key, `expected` the
    /// profile that a pairing promised.
    pub fn read_profile_file(
        &self,
        profile: &String,
        key: &Option<String>,
        expected: Option<&str>,
        replace: bool,
    ) -> (result: Result<Vec<ImportStep>, Refusal>)
        ensures
            ({
                let wanted = match expected {
                    Some(expected) => Some(expected@),
                    None => None,
                };
                match result {
                    Ok(steps) => self.import_refusal(profile@, *key, wanted, replace) is None
                        && steps@ == self.import_steps(*profile, key->0, wanted is Some),
                    Err(reason) => self.import_refusal(profile@, *key, wanted, replace) == Some(
                        reason,
                    ),
                }
            }),
    {
        let installed = match key {
            Some(key) => key,
            None => {
                return Err(Refusal::KeyUnavailable);
            },
        };
        if let Some(expected) = expected {
            if !same(expected, profile.as_str()) {
                return Err(Refusal::WrongProfile);
            }
        }
        let adopts: bool = match &self.session {
            Some(session) => !same(session.profile.as_str(), profile.as_str()),
            None => true,
        };
        if adopts && !replace {
            return Err(Refusal::ReplaceRequired);
        }
        let mut steps: Vec<ImportStep> = Vec::new();
        if adopts || self.status.settings.adopting {
            steps.push(ImportStep::StageDocuments { profile: profile.clone() });
            steps.push(ImportStep::ReplaceSnapshot);
            steps.push(ImportStep::Joining(true));
            steps.push(
                ImportStep::InstallKey { profile: profile.clone(), key: installed.clone() },
            );
            steps.push(ImportStep::Save(SettingsEdit::Adopting(profile.clone())));
            if self.network_open {
                steps.push(ImportStep::CloseProfile);
            }
            steps.push(ImportStep::StopSession);
            steps.push(ImportStep::OpenProfile { profile: profile.clone() });
            steps.push(ImportStep::FinishAdoption);
            if expected.is_none() {
                steps.push(ImportStep::Joining(false));
            }
        } else {
            steps.push(ImportStep::WriteSettings);
            steps.push(ImportStep::CaptureAll);
            steps.push(ImportStep::UnlockSync);
            steps.push(ImportStep::ImportSnapshot);
            steps.push(ImportStep::LockSync);
            steps.push(ImportStep::ProjectSession);
        }
        assert(steps@ =~= self.import_steps(*profile, *installed, expected is Some));
        Ok(steps)
    }
}

/// Whether a step changes what the device works with.
pub open spec fn touches_working_data(step: ImportStep) -> bool {
    !(step is StageDocuments) && !(step is ReplaceSnapshot)
}

/// Until the complete snapshot has been taken in, no step of an adoption touches the settings, the
/// keys or the open profile: an import that fails on its file leaves them as they were.
pub proof fn failed_imports_keep_the_data(owner: Owner, profile: String, key: String, paired: bool)
    requires
        owner.adopts(profile@) || owner.status.settings.adopting,
    ensures
        ({
            let steps = owner.import_steps(profile, key, paired);
            &&& steps[1] == ImportStep::ReplaceSnapshot
            &&& forall|i: int| 0 <= i <= 1 ==> !touches_working_data(#[trigger] steps[i])
        }),
{
}

/// A profile never takes the place of another without consent, and never one that a pairing did
/// not promise.
pub proof fn adoption_needs_consent(
    owner: Owner,
    profile: Seq<char>,
    key: Option<String>,
    expected: Option<Seq<char>>,
    replace: bool,
)
    requires
        owner.import_refusal(profile, key, expected, replace) is None,
    ensures
        owner.adopts(profile) ==> replace,
        expected matches Some(wanted) ==> wanted == profile,
{
}

/// One step by which the taking over of a profile is finished.
pub enum AdoptionStep {
    /// The collection, the settings and the queue are replaced by the profile's.
    ReplaceUserState,
    SourcesChanged,
    Capture,
    Save(SettingsEdit),
}

impl Owner {
    pub open spec fn finish_steps(&self) -> Seq<AdoptionStep> {
        seq![AdoptionStep::ReplaceUserState] + (if self.status.settings.setup_pending {
            seq![]
        } else {
            seq![AdoptionStep::SourcesChanged]
        }) + seq![AdoptionStep::Capture, AdoptionStep::Save(SettingsEdit::Adopted)]
    }

    /// The steps by which the taking over of a profile is finished.
    pub fn finish_adoption(&self) -> (result: Result<Vec<AdoptionStep>, Refusal>)
        ensures
            match result {
                Ok(steps) => self.session is Some && steps@ == self.finish_steps(),
                Err(reason) => self.session is None && reason == Refusal::NoProfile,
            },
    {
        if self.session.is_none() {
            return Err(Refusal::NoProfile);
        }
        let mut steps: Vec<AdoptionStep> = Vec::new();
        steps.push(AdoptionStep::ReplaceUserState);
        if !self.status.settings.setup_pending {
            steps.push(AdoptionStep::SourcesChanged);
        }
        steps.push(AdoptionStep::Capture);
        steps.push(AdoptionStep::Save(SettingsEdit::Adopted));
        assert(steps@ =~= self.finish_steps());
        Ok(steps)
    }

    /// Begins to install a file key. What is not a key is refused; a profile that had none so far is
    /// remembered as one with files.
    pub fn install_file_key(&self, profile: &String, key: &str) -> (result: Result<
        Option<SettingsEdit>,
        String,
    >)
        ensures
            match age_key_error(key@) {
                Some(message) => result matches Err(error) && error@ == message,
                None => result == Ok::<Option<SettingsEdit>, String>(
                    if self.status.settings.knows_profile(profile@) {
                        None
                    } else {
                        Some(SettingsEdit::FileProfile(*profile))
                    },
                ),
            },
    {
        if let Some(message) = key_error(key) {
            return Err(message);
        }
        if self.status.settings.has_file_profile(profile.as_str()) {
            Ok(None)
        } else {
            Ok(Some(SettingsEdit::FileProfile(profile.clone())))
        }
    }

    /// Begins to take over the profile of a device that let this one in: only while it joins, and
    /// only with a file key.
    pub fn adopt_paired(&self, key: &str) -> (result: Result<(), String>)
        ensures
            result is Ok <==> self.joining && age_key_error(key@) is None,
            result matches Err(error) ==> error@ == if !self.joining {
                Refusal::NotJoining.message()
            } else {
                age_key_error(key@)->0
            },
    {
        if !self.joining {
            return Err(Refusal::NotJoining.text().to_owned());
        }
        match key_error(key) {
            Some(message) => Err(message),
            None => Ok(()),
        }
    }

    /// Whether a profile that a peer sent is taken over: the device still joins, and it does so on
    /// the network on which the pairing was made.
    pub fn adopts_paired(&self, same_network: bool) -> (result: bool)
        ensures
            result == (self.joining && same_network),
    {
        self.joining && same_network
    }
}

/// One step by which the profile of another device is taken over, once its snapshot is here.
pub enum PairedStep {
    Save(SettingsEdit),
    /// The snapshot is read with the key, and must be of the profile.
    ReadProfileFile { profile: String, key: String },
    /// Joining has paused the exchange of files, also of a profile that was open before.
    ReopenIfStopped,
    PublishDevice,
    Joining(bool),
    ShowAdopted { peer: String, name: String },
}

pub open spec fn steps_of_pairing(profile: String, key: String, peer: String, name: String) -> Seq<
    PairedStep,
> {
    seq![
        PairedStep::Save(SettingsEdit::SetupPending(true)),
        PairedStep::ReadProfileFile { profile, key },
        PairedStep::ReopenIfStopped,
        PairedStep::PublishDevice,
        PairedStep::Save(SettingsEdit::Established),
        PairedStep::Joining(false),
        PairedStep::ShowAdopted { peer, name },
    ]
}

/// The device waits for its setup before it works with the profile.
pub fn paired_steps(profile: &String, key: &String, peer: &String, name: &String) -> (steps: Vec<
    PairedStep,
>)
    ensures
        steps@ == steps_of_pairing(*profile, *key, *peer, *name),
{
    let mut steps: Vec<PairedStep> = Vec::new();
    steps.push(PairedStep::Save(SettingsEdit::SetupPending(true)));
    steps.push(PairedStep::ReadProfileFile { profile: profile.clone(), key: key.clone() });
    steps.push(PairedStep::ReopenIfStopped);
    steps.push(PairedStep::PublishDevice);
    steps.push(PairedStep::Save(SettingsEdit::Established));
    steps.push(PairedStep::Joining(false));
    steps.push(PairedStep::ShowAdopted { peer: peer.clone(), name: name.clone() });
    assert(steps@ =~= steps_of_pairing(*profile, *key, *peer, *name));
    steps
}

/// A device while a profile file is read: what is staged, and what it works with.
pub struct ImportModel {
    /// Every step so far found what it needs.
    pub sound: bool,
    pub locked: bool,
    pub joining: bool,
    pub staged: Option<Seq<char>>,
    /// The staged documents hold the whole snapshot.
    pub replaced: bool,
    pub key: Option<(Seq<char>, Seq<char>)>,
    /// The profile that is being taken over, as the settings remember it.
    pub adopting: Option<Seq<char>>,
    pub on_network: bool,
    pub open: Option<Seq<char>>,
    /// The profile whose data the device works with.
    pub data: Option<Seq<char>>,
    /// What this device has is in the profile, and what the file has, too.
    pub settings_written: bool,
    pub captured: bool,
    pub merged: bool,
    pub projected: bool,
}

/// The device once a step was made.
pub open spec fn imported(model: ImportModel, step: ImportStep) -> ImportModel {
    match step {
        ImportStep::StageDocuments { profile } => ImportModel {
            staged: Some(profile@),
            replaced: false,
            ..model
        },
        ImportStep::ReplaceSnapshot => ImportModel {
            sound: model.sound && model.staged is Some,
            replaced: true,
            ..model
        },
        ImportStep::Joining(joining) => ImportModel { joining, ..model },
        // Keys and settings change only once the whole snapshot is here.
        ImportStep::InstallKey { profile, key } => ImportModel {
            sound: model.sound && model.replaced && model.staged == Some(profile@),
            key: Some((profile@, key@)),
            ..model
        },
        ImportStep::Save(SettingsEdit::Adopting(profile)) => ImportModel {
            sound: model.sound && model.replaced && model.staged == Some(profile@),
            adopting: Some(profile@),
            ..model
        },
        ImportStep::Save(_) => ImportModel { sound: false, ..model },
        ImportStep::CloseProfile => ImportModel {
            sound: model.sound && model.on_network,
            on_network: false,
            ..model
        },
        ImportStep::StopSession => ImportModel {
            sound: model.sound && !model.on_network,
            open: None,
            ..model
        },
        ImportStep::OpenProfile { profile } => ImportModel {
            sound: model.sound && model.locked && model.open is None && model.adopting == Some(
                profile@,
            ) && (model.key matches Some((of, _)) && of == profile@),
            open: Some(profile@),
            ..model
        },
        ImportStep::FinishAdoption => ImportModel {
            sound: model.sound && model.open == model.adopting && model.open is Some,
            data: model.open,
            adopting: None,
            ..model
        },
        ImportStep::WriteSettings => ImportModel {
            sound: model.sound && model.open is Some,
            settings_written: true,
            ..model
        },
        ImportStep::CaptureAll => ImportModel {
            sound: model.sound && model.settings_written,
            captured: true,
            ..model
        },
        ImportStep::UnlockSync => ImportModel {
            sound: model.sound && model.locked,
            locked: false,
            ..model
        },
        // What this device has is in the profile before the file is.
        ImportStep::ImportSnapshot => ImportModel {
            sound: model.sound && model.captured && !model.locked,
            merged: true,
            ..model
        },
        ImportStep::LockSync => ImportModel {
            sound: model.sound && !model.locked,
            locked: true,
            ..model
        },
        ImportStep::ProjectSession => ImportModel {
            sound: model.sound && model.merged && model.locked,
            projected: true,
            ..model
        },
    }
}

pub open spec fn import_run(model: ImportModel, steps: Seq<ImportStep>, count: int) -> ImportModel
    decreases count,
{
    if count <= 0 {
        model
    } else {
        imported(import_run(model, steps, count - 1), steps[count - 1])
    }
}

/// The model shows a device that is about to deal with a file.
pub open spec fn about_to_import(model: ImportModel, owner: Owner) -> bool {
    &&& model.sound && model.locked
    &&& model.on_network == owner.network_open
    &&& model.joining == owner.joining
    &&& model.open == match owner.session {
        Some(session) => Some(session.profile@),
        None => None,
    }
}

/// A profile that takes the place of another is what the device works with in the end, open and with
/// its key, and a device that was not let in by another no longer joins.
pub proof fn adopted_profiles_take_the_place_of_others(
    model: ImportModel,
    owner: Owner,
    profile: String,
    key: String,
    paired: bool,
)
    requires
        about_to_import(model, owner),
        owner.adopts(profile@) || owner.status.settings.adopting,
    ensures
        ({
            let steps = owner.import_steps(profile, key, paired);
            import_run(model, steps, steps.len() as int) == (ImportModel {
                joining: paired,
                staged: Some(profile@),
                replaced: true,
                key: Some((profile@, key@)),
                adopting: None,
                on_network: false,
                open: Some(profile@),
                data: Some(profile@),
                ..model
            })
        }),
{
    let steps = owner.import_steps(profile, key, paired);
    let start = seq![
        ImportStep::StageDocuments { profile },
        ImportStep::ReplaceSnapshot,
        ImportStep::Joining(true),
        ImportStep::InstallKey { profile, key },
        ImportStep::Save(SettingsEdit::Adopting(profile)),
    ];
    let rest = seq![
        ImportStep::StopSession,
        ImportStep::OpenProfile { profile },
        ImportStep::FinishAdoption,
    ];
    reveal_with_fuel(import_run, 11);
    if owner.network_open && paired {
        assert(steps =~= start + seq![ImportStep::CloseProfile] + rest);
    } else if owner.network_open {
        assert(steps =~= start + seq![ImportStep::CloseProfile] + rest + seq![
            ImportStep::Joining(false),
        ]);
    } else if paired {
        assert(steps =~= start + rest);
    } else {
        assert(steps =~= start + rest + seq![ImportStep::Joining(false)]);
    }
}

/// A file of the open profile is merged into it: what this device has is in the profile first, and
/// in the end both are, and the device works with them.
pub proof fn files_of_the_open_profile_are_merged(
    model: ImportModel,
    owner: Owner,
    profile: String,
    key: String,
    paired: bool,
)
    requires
        about_to_import(model, owner),
        !owner.adopts(profile@),
        !owner.status.settings.adopting,
    ensures
        ({
            let steps = owner.import_steps(profile, key, paired);
            import_run(model, steps, steps.len() as int) == (ImportModel {
                settings_written: true,
                captured: true,
                merged: true,
                projected: true,
                ..model
            })
        }),
{
    reveal_with_fuel(import_run, 7);
}

/// A profile that was read is refused exactly where its key is missing, or another one was promised,
/// or it would take the place of another without consent; and for the first of these reasons.
pub proof fn imports_are_refused_for_their_reason(
    owner: Owner,
    profile: Seq<char>,
    key: Option<String>,
    expected: Option<Seq<char>>,
    replace: bool,
)
    ensures
        owner.import_refusal(profile, key, expected, replace) is Some <==> key is None || (
        expected is Some && expected != Some(profile)) || (!replace && !(
        owner.session matches Some(session) && session.profile@ == profile)),
        owner.import_refusal(profile, key, expected, replace) == Some(Refusal::KeyUnavailable)
            <==> key is None,
        owner.import_refusal(profile, key, expected, replace) == Some(Refusal::WrongProfile)
            ==> expected is Some && expected != Some(profile),
        owner.import_refusal(profile, key, expected, replace) == Some(Refusal::ReplaceRequired)
            ==> !replace && (expected is None || expected == Some(profile)),
        owner.import_refusal(profile, key, expected, replace) matches Some(reason) ==> reason
            == Refusal::KeyUnavailable || reason == Refusal::WrongProfile || reason
            == Refusal::ReplaceRequired,
{
}

/// The taking over of a profile is over once its data has taken the place of the device's own, and
/// that is remembered last: one that is cut short is taken up again. The library is not shown to
/// sources before the device is set up.
pub proof fn adoptions_are_over_once_the_data_is_there(owner: Owner)
    ensures
        ({
            let steps = owner.finish_steps();
            &&& steps[0] == AdoptionStep::ReplaceUserState
            &&& steps.last() == AdoptionStep::Save(SettingsEdit::Adopted)
            &&& forall|i: int|
                0 <= i < steps.len() - 1 ==> !(#[trigger] steps[i] is Save)
            &&& exists|i: int| 0 < i < steps.len() - 1 && #[trigger] steps[i] == AdoptionStep::Capture
            &&& owner.status.settings.setup_pending <==> (forall|i: int|
                0 <= i < steps.len() ==> !(#[trigger] steps[i] is SourcesChanged))
        }),
{
    let steps = owner.finish_steps();
    if owner.status.settings.setup_pending {
        assert(steps =~= seq![
            AdoptionStep::ReplaceUserState,
            AdoptionStep::Capture,
            AdoptionStep::Save(SettingsEdit::Adopted),
        ]);
        assert(steps[1] == AdoptionStep::Capture);
    } else {
        assert(steps =~= seq![
            AdoptionStep::ReplaceUserState,
            AdoptionStep::SourcesChanged,
            AdoptionStep::Capture,
            AdoptionStep::Save(SettingsEdit::Adopted),
        ]);
        assert(steps[2] == AdoptionStep::Capture);
        assert(steps[1] is SourcesChanged);
    }
}

/// A device that was let into a profile reads that profile with its key and no other, waits for its
/// setup from before that on, stops joining only afterwards, and shows the device that let it in.
pub proof fn paired_devices_read_the_promised_profile(
    profile: String,
    key: String,
    peer: String,
    name: String,
)
    ensures
        ({
            let steps = steps_of_pairing(profile, key, peer, name);
            exists|waits: int, reads: int, publishes: int, ends: int|
                {
                    &&& 0 <= waits < reads && reads < publishes && publishes < ends && ends
                        < steps.len() - 1
                    &&& #[trigger] steps[waits] == PairedStep::Save(
                        SettingsEdit::SetupPending(true),
                    )
                    &&& #[trigger] steps[reads] == (PairedStep::ReadProfileFile { profile, key })
                    &&& #[trigger] steps[publishes] == PairedStep::PublishDevice
                    &&& #[trigger] steps[ends] == PairedStep::Joining(false)
                    &&& steps.last() == (PairedStep::ShowAdopted { peer, name })
                }
        }),
{
    let steps = steps_of_pairing(profile, key, peer, name);
    assert(steps[0] == PairedStep::Save(SettingsEdit::SetupPending(true)));
    assert(steps[1] == (PairedStep::ReadProfileFile { profile, key }));
    assert(steps[3] == PairedStep::PublishDevice);
    assert(steps[5] == PairedStep::Joining(false));
}

/// Every profile that this device can have keys for is tried: those that it knows of, and the open
/// one, each once where they were known once.
pub proof fn all_known_profiles_are_tried(settings: ConnectSettings, current: Option<Session>)
    ensures
        ({
            let tried = profiles_tried(settings, current);
            &&& forall|i: int|
                0 <= i < settings.file_profiles@.len() ==> tried.contains(
                    #[trigger] settings.file_profiles@[i],
                )
            &&& current matches Some(session) ==> exists|i: int|
                0 <= i < tried.len() && #[trigger] tried[i]@ == session.profile@
            &&& current is None ==> tried == settings.file_profiles@
        }),
{
    let tried = profiles_tried(settings, current);
    let known = settings.file_profiles@;
    assert forall|i: int| 0 <= i < known.len() implies tried.contains(#[trigger] known[i]) by {
        assert(tried[i] == known[i]);
    }
    if let Some(session) = current {
        if settings.knows_profile(session.profile@) {
            let i = choose|i: int| 0 <= i < known.len() && #[trigger] known[i]@ == session.profile@;
            assert(tried[i]@ == session.profile@);
        } else {
            assert(tried[known.len() as int]@ == session.profile@);
        }
    }
}

/// Every key that is stored of a profile is tried.
pub proof fn all_stored_keys_are_tried(list: Seq<ProfileKeys>, i: int, j: int)
    requires
        0 <= i < list.len(),
    ensures
        list[i].current matches Some(key) ==> keys_of(list).contains(key),
        0 <= j < list[i].previous@.len() ==> keys_of(list).contains(list[i].previous@[j]),
    decreases list.len(),
{
    let init = list.drop_last();
    let before = keys_of(init);
    let current = match list.last().current {
        Some(key) => seq![key],
        None => seq![],
    };
    let all = before + current + list.last().previous@;
    assert(keys_of(list) == all);
    if i < init.len() {
        all_stored_keys_are_tried(init, i, j);
        assert(init[i] == list[i]);
        assert forall|key: String| before.contains(key) implies all.contains(key) by {
            let k = choose|k: int| 0 <= k < before.len() && before[k] == key;
            assert(all[k] == key);
        }
    } else {
        if let Some(key) = list[i].current {
            assert(all[before.len() as int] == key);
        }
        if 0 <= j < list[i].previous@.len() {
            assert(all[before.len() + current.len() + j] == list[i].previous@[j]);
        }
    }
}

} // verus!
