//! Installing releases.

use vstd::prelude::*;

use crate::text::{lossy_text, same, split_words, texts, utf8_lossy, words};

verus! {

/// How an installation went.
#[derive(Clone, Copy, Debug, PartialEq, Eq, Structural)]
pub enum InstallOutcome {
    Updated { restart_required: bool },
    Restarting,
}

/// What an earlier installation left.
pub enum PreviousUpdateResult {
    Installed { version: String },
    Failed { version: String, message: String },
}

impl PreviousUpdateResult {
    pub open spec fn release(&self) -> Seq<char> {
        match self {
            PreviousUpdateResult::Installed { version } => version@,
            PreviousUpdateResult::Failed { version, .. } => version@,
        }
    }

    pub fn version(&self) -> (result: &str)
        ensures
            result@ == self.release(),
    {
        match self {
            PreviousUpdateResult::Installed { version } => version.as_str(),
            PreviousUpdateResult::Failed { version, .. } => version.as_str(),
        }
    }
}

/// A version is one of the words behind the package's name.
pub open spec fn lists_version(text: Seq<char>, version: Seq<char>) -> bool {
    exists|i: int| 1 <= i < words(text).len() && #[trigger] words(text)[i] == version
}

/// Whether Homebrew's list of versions, as a text, holds a version.
pub fn version_listed(text: &str, version: &str) -> (result: bool)
    ensures
        result == lists_version(text@, version@),
{
    let list = split_words(text);
    let ghost all = words(text@);
    let mut i: usize = 1;
    while i < list.len()
        invariant
            1 <= i,
            all == words(text@),
            texts(list@) == all,
            forall|j: int| 1 <= j < i && j < all.len() ==> #[trigger] all[j] != version@,
        decreases list@.len() - i,
    {
        assert(all[i as int] == list@[i as int]@);
        if same(list[i].as_str(), version) {
            return true;
        }
        i += 1;
    }
    false
}

/// Whether Homebrew's list of versions holds a version as a whole word.
pub fn brew_output_has_version(output: &[u8], version: &str) -> (result: bool)
    ensures
        result == lists_version(utf8_lossy(output@), version@),
{
    let text = lossy_text(output);
    version_listed(text.as_str(), version)
}

/// What Homebrew did: whether its commands could be run and were successful.
pub struct BrewRun {
    pub update: bool,
    pub upgrade: bool,
    /// The list of installed versions names the release.
    pub installed: bool,
}

/// Decides how an installation with Homebrew went. What is installed in the end counts; the other
/// commands only explain a failure.
pub fn install(run: &BrewRun) -> (result: Result<InstallOutcome, &'static str>)
    ensures
        match result {
            Ok(outcome) => run.installed && outcome == (InstallOutcome::Updated {
                restart_required: true,
            }),
            Err(message) => !run.installed && message@ == if !run.update {
                "Homebrew could not refresh its package information."@
            } else if !run.upgrade {
                "Homebrew could not upgrade Rufin."@
            } else {
                "Homebrew did not install the requested Rufin release."@
            },
        },
{
    if run.installed {
        Ok(InstallOutcome::Updated { restart_required: true })
    } else if !run.update {
        Err("Homebrew could not refresh its package information.")
    } else if !run.upgrade {
        Err("Homebrew could not upgrade Rufin.")
    } else {
        Err("Homebrew did not install the requested Rufin release.")
    }
}

/// The texts without those that stand earlier in the list.
pub open spec fn first_of_each(list: Seq<Seq<char>>) -> Seq<Seq<char>>
    decreases list.len(),
{
    if list.len() == 0 {
        seq![]
    } else {
        let earlier = first_of_each(list.drop_last());
        if earlier.contains(list.last()) {
            earlier
        } else {
            earlier.push(list.last())
        }
    }
}

/// The places where Homebrew is looked for, each once and in order.
pub fn brew_candidates(places: &Vec<String>) -> (result: Vec<String>)
    ensures
        texts(result@) == first_of_each(texts(places@)),
{
    let mut result: Vec<String> = Vec::new();
    let ghost all = texts(places@);
    let mut i: usize = 0;
    assert(texts(result@) =~= first_of_each(all.take(0)));
    while i < places.len()
        invariant
            i <= places@.len(),
            all == texts(places@),
            texts(result@) == first_of_each(all.take(i as int)),
        decreases places@.len() - i,
    {
        let ghost kept = texts(result@);
        proof {
            assert(all.take(i + 1).drop_last() =~= all.take(i as int));
            assert(all.take(i + 1).last() == places@[i as int]@);
        }
        if !holds_text(&result, places[i].as_str()) {
            result.push(places[i].clone());
            assert(texts(result@) =~= kept.push(places@[i as int]@));
        }
        i += 1;
    }
    assert(all.take(i as int) =~= all);
    result
}

fn holds_text(list: &Vec<String>, text: &str) -> (result: bool)
    ensures
        result == texts(list@).contains(text@),
{
    let mut i: usize = 0;
    while i < list.len()
        invariant
            i <= list@.len(),
            forall|j: int| 0 <= j < i ==> #[trigger] texts(list@)[j] != text@,
        decreases list@.len() - i,
    {
        assert(texts(list@)[i as int] == list@[i as int]@);
        if same(list[i].as_str(), text) {
            return true;
        }
        i += 1;
    }
    false
}

/// No place is tried twice, and none that was given is left out.
pub proof fn candidates_are_complete(list: Seq<Seq<char>>)
    ensures
        first_of_each(list).no_duplicates(),
        forall|text: Seq<char>| first_of_each(list).contains(text) <==> list.contains(text),
    decreases list.len(),
{
    if list.len() > 0 {
        let init = list.drop_last();
        let last = list.last();
        let earlier = first_of_each(init);
        candidates_are_complete(init);
        assert forall|text: Seq<char>| first_of_each(list).contains(text) <==> list.contains(text) by {
            assert(earlier.contains(text) <==> init.contains(text));
            if init.contains(text) {
                let i = choose|i: int| 0 <= i < init.len() && init[i] == text;
                assert(list[i] == text);
            }
            if list.contains(text) {
                let i = choose|i: int| 0 <= i < list.len() && list[i] == text;
                if i < init.len() {
                    assert(init[i] == text);
                }
            }
            if earlier.contains(text) {
                let i = choose|i: int| 0 <= i < earlier.len() && earlier[i] == text;
                assert(first_of_each(list)[i] == text);
            }
            if text == last {
                assert(list[list.len() - 1] == text);
                if !earlier.contains(last) {
                    assert(earlier.push(last)[earlier.len() as int] == last);
                }
            }
            if first_of_each(list).contains(text) && !earlier.contains(last) {
                let i = choose|i: int|
                    0 <= i < earlier.push(last).len() && earlier.push(last)[i] == text;
                if i < earlier.len() {
                    assert(earlier[i] == text);
                }
            }
        }
    }
}

} // verus!
