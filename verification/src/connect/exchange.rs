//! Exchanging profile files through a shared folder.

use vstd::prelude::*;
use vstd::string::*;

use crate::connect::owner::Refusal;
use crate::connect::settings::Destination;
use crate::paths::PathStyle;
use crate::text::{
    chars_of, ends_with, joined, matches_at, same, shown, string_of, trim_by, trim_chars, CharClass,
};
use crate::textmap::TextMap;

verus! {

/// The ending of a profile file's name.
pub open spec fn file_suffix() -> Seq<char> {
    ".rufin-connect"@
}

/// Whether a file of a folder is a profile file.
pub fn is_profile_file(name: &str) -> (result: bool)
    ensures
        result == matches_at(name@, name@.len() - file_suffix().len(), file_suffix()),
{
    ends_with(name, ".rufin-connect")
}

/// The path of a device's own file below the destination: in a source its folder stands before it.
pub open spec fn own_file(identity: Seq<char>, destination: Destination) -> Seq<char> {
    let name = identity + file_suffix();
    match destination {
        Destination::Local { .. } => name,
        Destination::Remote { path, .. } => {
            let folder = trim_by(path@, CharClass::Only('/'));
            if folder.len() == 0 {
                name
            } else {
                folder + "/"@ + name
            }
        },
    }
}

pub fn own_path(identity: &str, destination: &Destination) -> (result: String)
    ensures
        result@ == own_file(identity@, *destination),
{
    let name = joined(identity, ".rufin-connect");
    match destination {
        Destination::Local { .. } => name,
        Destination::Remote { path, .. } => {
            let folder = string_of(&trim_chars(&chars_of(path.as_str()), CharClass::Only('/')));
            if folder.as_str().is_empty() {
                name
            } else {
                let mut full = joined(folder.as_str(), "/");
                full.append(name.as_str());
                full
            }
        },
    }
}

/// The files that were read from a destination, each with its version where one is known, and the
/// revision of the profile that this device's own file holds.
pub struct FileExchange {
    pub destination: Destination,
    pub files: TextMap<Option<String>>,
    pub revision: Option<i64>,
}

/// A version that is known and the same as before.
pub open spec fn unchanged(
    files: Map<Seq<char>, Option<String>>,
    path: Seq<char>,
    version: Option<String>,
) -> bool {
    version is Some && files.dom().contains(path) && shown(files[path]) == shown(version)
}

/// The revision that the device's own file is known to hold once a file was read.
pub open spec fn revision_read(known: Option<i64>, current: Option<i64>) -> Option<i64> {
    if current is Some {
        current
    } else {
        known
    }
}

impl FileExchange {
    pub open spec fn wf(&self) -> bool {
        self.files.wf()
    }

    pub fn fresh(destination: &Destination) -> (result: Self)
        ensures
            result.wf(),
            result.destination == *destination,
            result.files@ == Map::<Seq<char>, Option<String>>::empty(),
            result.revision is None,
    {
        FileExchange { destination: destination.copy(), files: TextMap::new(), revision: None }
    }

    /// What is known of a destination: nothing of one that the last exchange did not use.
    pub fn resume(style: PathStyle, previous: Option<Self>, destination: &Destination) -> (result:
        Self)
        requires
            previous matches Some(cached) ==> cached.wf(),
        ensures
            result.wf(),
            match previous {
                Some(cached) => if Destination::same_place(
                    style,
                    cached.destination,
                    *destination,
                ) {
                    result == cached
                } else {
                    result.destination == *destination && result.revision is None && result.files@
                        == Map::<Seq<char>, Option<String>>::empty()
                },
                None => result.destination == *destination && result.revision is None
                    && result.files@ == Map::<Seq<char>, Option<String>>::empty(),
            },
    {
        match previous {
            Some(cached) => if cached.destination.matches(style, destination) {
                cached
            } else {
                Self::fresh(destination)
            },
            None => Self::fresh(destination),
        }
    }

    /// Whether a file is read: not one whose version is known and has not changed.
    pub fn reads(&self, path: &str, version: &Option<String>) -> (result: bool)
        requires
            self.wf(),
        ensures
            result == !unchanged(self.files@, path@, *version),
    {
        match version {
            None => true,
            Some(version) => match self.files.get(path) {
                Some(Some(known)) => !same(known.as_str(), version.as_str()),
                _ => true,
            },
        }
    }

    /// A file was read and merged. `current` is the profile's revision where the file is this
    /// device's own and already holds all of it.
    pub fn read(&mut self, path: String, version: Option<String>, current: Option<i64>)
        requires
            old(self).wf(),
        ensures
            final(self).wf(),
            final(self).destination == old(self).destination,
            final(self).files@ == old(self).files@.insert(path@, version),
            final(self).revision == revision_read(old(self).revision, current),
    {
        if current.is_some() {
            self.revision = current;
        }
        self.files.insert(path, version);
    }

    /// The device's own file is missing, or holds an older state of the profile.
    pub open spec fn needs_writing(&self, own_exists: bool, revision: i64) -> bool {
        !(own_exists && self.revision == Some(revision))
    }

    /// Whether this device writes its file: unless it exists and holds the profile as it is.
    pub fn writes(&self, own_exists: bool, revision: i64) -> (result: bool)
        ensures
            result == self.needs_writing(own_exists, revision),
    {
        let held: bool = match self.revision {
            Some(known) => known == revision,
            None => false,
        };
        !(own_exists && held)
    }

    /// This device wrote its own file.
    pub fn wrote(&mut self, own_path: String, version: Option<String>, revision: i64)
        requires
            old(self).wf(),
        ensures
            final(self).wf(),
            final(self).destination == old(self).destination,
            final(self).files@ == old(self).files@.insert(own_path@, version),
            final(self).revision == Some(revision),
    {
        self.revision = Some(revision);
        self.files.insert(own_path, version);
    }
}

/// A file of a folder with its version, where one is known.
pub struct FileEntry {
    pub path: String,
    pub version: Option<String>,
}

pub open spec fn lists(entries: Seq<FileEntry>, path: Seq<char>) -> bool {
    exists|i: int| 0 <= i < entries.len() && (#[trigger] entries[i]).path@ == path
}

/// Whether a file is among those of the folder.
pub fn has_entry(entries: &Vec<FileEntry>, path: &str) -> (result: bool)
    ensures
        result == lists(entries@, path@),
{
    let mut i: usize = 0;
    while i < entries.len()
        invariant
            i <= entries@.len(),
            forall|j: int| 0 <= j < i ==> (#[trigger] entries@[j]).path@ != path@,
        decreases entries@.len() - i,
    {
        if same(entries[i].path.as_str(), path) {
            return true;
        }
        i += 1;
    }
    false
}

/// The version of a file in the folder, where it is listed with one.
pub open spec fn version_of(entries: Seq<FileEntry>, path: Seq<char>) -> Option<Seq<char>>
    decreases entries.len(),
{
    if entries.len() == 0 {
        None
    } else if entries[0].path@ == path {
        shown(entries[0].version)
    } else {
        version_of(entries.drop_first(), path)
    }
}

pub fn entry_version(entries: &Vec<FileEntry>, path: &str) -> (result: Option<String>)
    ensures
        shown(result) == version_of(entries@, path@),
{
    let mut i: usize = 0;
    assert(entries@.skip(0) =~= entries@);
    while i < entries.len()
        invariant
            i <= entries@.len(),
            version_of(entries@, path@) == version_of(entries@.skip(i as int), path@),
        decreases entries@.len() - i,
    {
        assert(entries@.skip(i as int).drop_first() =~= entries@.skip(i + 1));
        if same(entries[i].path.as_str(), path) {
            return match &entries[i].version {
                Some(version) => Some(version.clone()),
                None => None,
            };
        }
        i += 1;
    }
    None
}

impl FileExchange {
    /// The next file that an exchange reads, from the given place in the folder's list on. What was
    /// read before counts: a file that is listed twice is read once.
    pub fn exchange_session(&self, entries: &Vec<FileEntry>, from: usize) -> (result: Option<usize>)
        requires
            self.wf(),
        ensures
            match result {
                Some(i) => from <= i < entries@.len() && !self.holds(entries@[i as int])
                    && forall|j: int| from <= j < i ==> self.holds(#[trigger] entries@[j]),
                None => forall|j: int|
                    from <= j < entries@.len() ==> self.holds(#[trigger] entries@[j]),
            },
    {
        let mut i: usize = from;
        while i < entries.len()
            invariant
                self.wf(),
                from <= i,
                forall|j: int| from <= j < i && j < entries@.len() ==> self.holds(
                    #[trigger] entries@[j],
                ),
            decreases entries@.len() - i,
        {
            let entry = &entries[i];
            if self.reads(entry.path.as_str(), &entry.version) {
                return Some(i);
            }
            i += 1;
        }
        None
    }

    /// The file was read at this version.
    pub open spec fn holds(&self, entry: FileEntry) -> bool {
        unchanged(self.files@, entry.path@, entry.version)
    }
}

/// The keys with which an exchanged file is opened: the current one first, then those before it.
pub fn exchange_keys(current: String, previous: Vec<String>) -> (keys: Vec<String>)
    ensures
        keys@ == seq![current] + previous@,
{
    let mut keys: Vec<String> = Vec::new();
    keys.push(current);
    assert(keys@ =~= seq![current]);
    let mut previous = previous;
    keys.append(&mut previous);
    keys
}

/// A file that came from elsewhere must belong to the profile that the exchange is for.
pub fn exchange_import(profile: &str, session_profile: &str) -> (result: Result<(), Refusal>)
    ensures
        result == if profile@ == session_profile@ {
            Ok::<(), Refusal>(())
        } else {
            Err(Refusal::OtherProfile)
        },
{
    if same(profile, session_profile) {
        Ok(())
    } else {
        Err(Refusal::OtherProfile)
    }
}

/// A file that was read is not read again while its version stays the same.
pub proof fn unchanged_files_are_read_once(
    files: Map<Seq<char>, Option<String>>,
    path: Seq<char>,
    version: String,
)
    ensures
        unchanged(files.insert(path, Some(version)), path, Some(version)),
{
}

/// A file that was read and holds the profile as it is, is not written again, also where its folder
/// knows no versions; a change of the profile makes the device write it, and so does its loss.
pub proof fn unchanged_profiles_are_not_rewritten(
    known: Option<i64>,
    after: FileExchange,
    revision: i64,
    later: i64,
)
    requires
        after.revision == revision_read(known, Some(revision)),
        later != revision,
    ensures
        !after.needs_writing(true, revision),
        after.needs_writing(true, later),
        after.needs_writing(false, revision),
{
}

/// What an exchange comes upon: the files of the folder, those of them that can be read, whether the
/// device's own file holds all of the profile, and the profile's revision.
pub struct Encounter {
    pub entries: Seq<FileEntry>,
    pub present: Set<Seq<char>>,
    pub current: bool,
    pub revision: i64,
}

/// What is known after the first `count` files of a folder: those that are new or have changed were
/// read.
pub open spec fn known_after(
    files: Map<Seq<char>, Option<String>>,
    revision: Option<i64>,
    own: Seq<char>,
    met: Encounter,
    count: nat,
) -> (Map<Seq<char>, Option<String>>, Option<i64>)
    decreases count,
{
    if count == 0 {
        (files, revision)
    } else {
        let (files, revision) = known_after(files, revision, own, met, (count - 1) as nat);
        let entry = met.entries[count - 1];
        if unchanged(files, entry.path@, entry.version) || !met.present.contains(entry.path@) {
            (files, revision)
        } else {
            (
                files.insert(entry.path@, entry.version),
                revision_read(
                    revision,
                    if entry.path@ == own && met.current {
                        Some(met.revision)
                    } else {
                        None
                    },
                ),
            )
        }
    }
}

/// An exchange goes from one file that it reads to the next: what it knows is not changed by those
/// in between, which it holds already.
pub proof fn exchanges_pass_over_known_files(
    files: Map<Seq<char>, Option<String>>,
    revision: Option<i64>,
    own: Seq<char>,
    met: Encounter,
    from: nat,
    at: nat,
)
    requires
        from <= at <= met.entries.len(),
        forall|j: int|
            from <= j < at ==> unchanged(
                known_after(files, revision, own, met, from).0,
                (#[trigger] met.entries[j]).path@,
                met.entries[j].version,
            ),
    ensures
        known_after(files, revision, own, met, at) == known_after(files, revision, own, met, from),
    decreases at - from,
{
    if from < at {
        exchanges_pass_over_known_files(files, revision, own, met, from, (at - 1) as nat);
        assert(unchanged(
            known_after(files, revision, own, met, from).0,
            met.entries[at - 1].path@,
            met.entries[at - 1].version,
        ));
    }
}

/// Whether an exchange writes the device's own file.
pub open spec fn exchange_writes(
    files: Map<Seq<char>, Option<String>>,
    revision: Option<i64>,
    own: Seq<char>,
    met: Encounter,
) -> bool {
    let known = known_after(files, revision, own, met, met.entries.len());
    !(lists(met.entries, own) && known.1 == Some(met.revision))
}

/// The revision that the device's own file is known to hold after an exchange.
pub open spec fn revision_after(
    files: Map<Seq<char>, Option<String>>,
    revision: Option<i64>,
    own: Seq<char>,
    met: Encounter,
) -> Option<i64> {
    if exchange_writes(files, revision, own, met) {
        Some(met.revision)
    } else {
        known_after(files, revision, own, met, met.entries.len()).1
    }
}

proof fn known_revisions_stay(
    files: Map<Seq<char>, Option<String>>,
    revision: Option<i64>,
    own: Seq<char>,
    met: Encounter,
    count: nat,
)
    requires
        count <= met.entries.len(),
    ensures
        revision == Some(met.revision) ==> known_after(files, revision, own, met, count).1 == Some(
            met.revision,
        ),
        files.dom().len() == 0 && files.dom().finite() && met.current && met.present.contains(own)
            && (exists|i: int| 0 <= i < count && (#[trigger] met.entries[i]).path@ == own)
            ==> known_after(files, revision, own, met, count).1 == Some(met.revision),
        files.dom().len() == 0 && files.dom().finite() && (forall|i: int|
            0 <= i < count ==> (#[trigger] met.entries[i]).path@ != own) ==> !known_after(
            files,
            revision,
            own,
            met,
            count,
        ).0.dom().contains(own),
    decreases count,
{
    if count == 0 {
        if files.dom().len() == 0 && files.dom().finite() {
            assert(files.dom() =~= Set::empty());
        }
    } else {
        known_revisions_stay(files, revision, own, met, (count - 1) as nat);
        if files.dom().len() == 0 && files.dom().finite() && met.current && met.present.contains(own)
            && (exists|i: int| 0 <= i < count && (#[trigger] met.entries[i]).path@ == own) {
            if !(exists|i: int| 0 <= i < count - 1 && (#[trigger] met.entries[i]).path@ == own) {
                assert(met.entries[count - 1].path@ == own);
            }
        }
    }
}

/// After an exchange, the device's own file is known to hold the profile as it was then.
pub proof fn exchanges_know_their_file(
    files: Map<Seq<char>, Option<String>>,
    revision: Option<i64>,
    own: Seq<char>,
    met: Encounter,
)
    ensures
        revision_after(files, revision, own, met) == Some(met.revision),
{
}

/// A second exchange of a profile that was not edited, with a folder that holds the device's own
/// file, writes nothing: neither where the first is remembered, nor where all that was known is
/// forgotten and the own file is found to hold the profile. Whether versions are known does not
/// matter.
pub proof fn unedited_profiles_are_written_once(
    files: Map<Seq<char>, Option<String>>,
    revision: Option<i64>,
    own: Seq<char>,
    first: Encounter,
    later_files: Map<Seq<char>, Option<String>>,
    second: Encounter,
)
    requires
        second.revision == first.revision,
        lists(second.entries, own),
    ensures
        !exchange_writes(later_files, revision_after(files, revision, own, first), own, second),
        second.current && second.present.contains(own) ==> !exchange_writes(
            Map::empty(),
            None,
            own,
            second,
        ),
{
    exchanges_know_their_file(files, revision, own, first);
    known_revisions_stay(
        later_files,
        Some(first.revision),
        own,
        second,
        second.entries.len(),
    );
    known_revisions_stay(Map::empty(), None, own, second, second.entries.len());
    if second.current && second.present.contains(own) {
        let i = choose|i: int|
            0 <= i < second.entries.len() && (#[trigger] second.entries[i]).path@ == own;
        assert(second.entries[i].path@ == own);
    }
}

proof fn other_revisions_stay(
    files: Map<Seq<char>, Option<String>>,
    revision: Option<i64>,
    own: Seq<char>,
    met: Encounter,
    count: nat,
)
    requires
        count <= met.entries.len(),
        revision != Some(met.revision),
        !met.current,
    ensures
        known_after(files, revision, own, met, count).1 == revision,
    decreases count,
{
    if count > 0 {
        other_revisions_stay(files, revision, own, met, (count - 1) as nat);
    }
}

/// An edit of the profile makes the next exchange write the device's own file, and the one after
/// that leaves it alone.
pub proof fn edits_are_written_once(
    files: Map<Seq<char>, Option<String>>,
    revision: Option<i64>,
    own: Seq<char>,
    first: Encounter,
    edited_files: Map<Seq<char>, Option<String>>,
    edited: Encounter,
    later_files: Map<Seq<char>, Option<String>>,
    third: Encounter,
)
    requires
        edited.revision != first.revision,
        !edited.current,
        third.revision == edited.revision,
        lists(third.entries, own),
    ensures
        ({
            let known = revision_after(files, revision, own, first);
            &&& exchange_writes(edited_files, known, own, edited)
            &&& !exchange_writes(
                later_files,
                revision_after(edited_files, known, own, edited),
                own,
                third,
            )
        }),
{
    let known = revision_after(files, revision, own, first);
    exchanges_know_their_file(files, revision, own, first);
    other_revisions_stay(edited_files, known, own, edited, edited.entries.len());
    unedited_profiles_are_written_once(edited_files, known, own, edited, later_files, third);
}

/// Devices with different identities never write the same file of a destination.
pub proof fn devices_write_their_own_files(a: Seq<char>, b: Seq<char>, destination: Destination)
    requires
        own_file(a, destination) == own_file(b, destination),
    ensures
        a == b,
{
    let suffix = file_suffix();
    let prefix = match destination {
        Destination::Local { .. } => Seq::<char>::empty(),
        Destination::Remote { path, .. } => {
            let folder = trim_by(path@, CharClass::Only('/'));
            if folder.len() == 0 {
                Seq::<char>::empty()
            } else {
                folder + "/"@
            }
        },
    };
    let x = own_file(a, destination);
    let y = own_file(b, destination);
    assert(x =~= prefix + a + suffix);
    assert(y =~= prefix + b + suffix);
    assert(a.len() == b.len());
    assert(x.subrange(prefix.len() as int, (prefix.len() + a.len()) as int) =~= a);
    assert(y.subrange(prefix.len() as int, (prefix.len() + b.len()) as int) =~= b);
}

} // verus!
