//! What a search for media finds: a model of this device and of the other members of a profile, and
//! how a search in it ends.

use vstd::prelude::*;

use crate::connect::resolve::{
    fetch_from, fits, next_peer, resolution, search_from, Phase, Query, Reply, Search, Wanted,
};
use crate::connect::settings::Encoding;

verus! {

/// What another member answers.
pub struct MemberModel {
    /// It knows the track.
    pub reference: bool,
    /// Why it cannot hand over the file itself, where it cannot.
    pub refuses_file: Option<String>,
    /// The file that its media comes to on this device, or why it does not.
    pub media: Result<String, String>,
}

/// What this device has of a track, and the members of its profile.
pub struct World {
    pub referenced: bool,
    pub received: bool,
    pub received_file: Option<String>,
    pub local_file: Option<String>,
    pub reusable: Option<String>,
    pub has_original: bool,
    /// What can be reused once the smaller representation was prepared.
    pub prepared: Option<String>,
    pub members: Vec<String>,
    pub answers: Map<Seq<char>, MemberModel>,
}

pub open spec fn yes_or_no(yes: bool) -> Reply {
    if yes {
        Reply::Yes
    } else {
        Reply::No
    }
}

pub open spec fn path_or_none(path: Option<String>) -> Reply {
    match path {
        Some(path) => Reply::Path(path),
        None => Reply::NoPath,
    }
}

/// The answer to a question of the search.
pub open spec fn answer(world: World, phase: Phase, query: Query) -> Reply {
    match query {
        Query::Reference => yes_or_no(world.referenced),
        Query::Received => yes_or_no(world.received),
        Query::ReceivedFile => path_or_none(world.received_file),
        Query::LinkQueueFile | Query::StoreReference | Query::PrepareLocally => Reply::Done,
        Query::Members => Reply::Members(world.members),
        Query::AskReference { peer } => yes_or_no(world.answers[peer@].reference),
        Query::FetchDirect { peer } => match world.answers[peer@].refuses_file {
            Some(reason) => Reply::Failed(reason),
            None => Reply::Done,
        },
        Query::LocalFile => path_or_none(world.local_file),
        Query::Reusable => path_or_none(
            if phase is PreparedReusable {
                world.prepared
            } else {
                world.reusable
            },
        ),
        Query::OriginalFile => yes_or_no(world.has_original),
        Query::Fetch { peer } => match world.answers[peer@].media {
            Ok(path) => Reply::Path(path),
            Err(reason) => Reply::Failed(reason),
        },
    }
}

/// How a search ends that asks so many questions at most.
pub open spec fn ends(world: World, wanted: Wanted, search: Search, questions: nat) -> Search
    decreases questions,
{
    match search {
        Search::Ask { phase, query } if questions > 0 => ends(
            world,
            wanted,
            resolution(wanted, phase, answer(world, phase, query)),
            (questions - 1) as nat,
        ),
        other => other,
    }
}

/// A search on a device with an open profile.
pub open spec fn started(wanted: Wanted) -> Search {
    resolution(wanted, Phase::Session, Reply::Yes)
}

/// The member `at` is another device, and sends the media to a path.
pub open spec fn sends(world: World, wanted: Wanted, members: Seq<String>, at: int, path: String) -> bool {
    0 <= at < members.len() && members[at]@ != wanted.identity@
        && world.answers[members[at]@].media == Ok::<String, String>(path)
}

/// The member `at` is this device, or cannot send the media.
pub open spec fn sends_nothing(world: World, wanted: Wanted, members: Seq<String>, at: int) -> bool {
    members[at]@ == wanted.identity@ || world.answers[members[at]@].media is Err
}

/// A path that a member or this device answers with is what the search ends with, or what it links
/// first where the file was received before; nothing else is ever found.
pub proof fn answered_paths_are_found(wanted: Wanted, phase: Phase, reply: Reply)
    requires
        fits(phase, reply),
    ensures
        reply matches Reply::Path(path) ==> (if phase is ReceivedFile {
            resolution(wanted, phase, reply) == (Search::Ask {
                phase: Phase::Link { path },
                query: Query::LinkQueueFile,
            })
        } else {
            resolution(wanted, phase, reply) == Search::Found(Some(path))
        }),
        phase matches Phase::Link { path } ==> (reply is Done ==> resolution(wanted, phase, reply)
            == Search::Found(Some(path))),
        resolution(wanted, phase, reply) matches Search::Found(Some(path)) ==> reply
            == Reply::Path(path) || phase == (Phase::Link { path }),
{
}

/// A failure of this device ends the search with its reason; one of another member never does.
pub proof fn failures_of_members_do_not_end_a_search(wanted: Wanted, phase: Phase, reason: String)
    requires
        fits(phase, Reply::Failed(reason)),
    ensures
        resolution(wanted, phase, Reply::Failed(reason)) == Search::Failed(reason) <==> !(
        phase is Search || phase is Direct || phase is Fetch),
        phase is Search || phase is Direct || phase is Fetch ==> !(resolution(
            wanted,
            phase,
            Reply::Failed(reason),
        ) is Failed),
{
}

/// The media comes from the first other member that sends it, whatever the members before it
/// answered.
pub proof fn media_comes_from_the_first_member_that_sends_it(
    world: World,
    wanted: Wanted,
    members: Vec<String>,
    from: int,
    failure: Option<String>,
    at: int,
    path: String,
    questions: nat,
)
    requires
        members@.len() < usize::MAX,
        0 <= from <= at,
        sends(world, wanted, members@, at, path),
        forall|i: int| from <= i < at ==> #[trigger] sends_nothing(world, wanted, members@, i),
        questions > at - from,
    ensures
        ends(world, wanted, fetch_from(wanted, members, from, failure), questions)
            == Search::Found(Some(path)),
    decreases at - from,
{
    reveal_with_fuel(ends, 3);
    if from == at {
        assert(next_peer(members@, wanted.identity@, from) == Some(at));
    } else if members@[from]@ == wanted.identity@ {
        assert(next_peer(members@, wanted.identity@, from) == next_peer(
            members@,
            wanted.identity@,
            from + 1,
        ));
        media_comes_from_the_first_member_that_sends_it(
            world,
            wanted,
            members,
            from + 1,
            failure,
            at,
            path,
            questions,
        );
    } else {
        assert(sends_nothing(world, wanted, members@, from));
        let reason = world.answers[members@[from]@].media->Err_0;
        media_comes_from_the_first_member_that_sends_it(
            world,
            wanted,
            members,
            from + 1,
            Some(reason),
            at,
            path,
            (questions - 1) as nat,
        );
    }
}

/// Where no member sends the media the search says so, with the reason of the last member that was
/// asked, and shows it.
pub proof fn missing_media_is_reported(
    world: World,
    wanted: Wanted,
    members: Vec<String>,
    from: int,
    failure: Option<String>,
    questions: nat,
)
    requires
        members@.len() < usize::MAX,
        0 <= from <= members@.len(),
        forall|i: int|
            from <= i < members@.len() ==> #[trigger] sends_nothing(world, wanted, members@, i),
        questions >= members@.len() - from,
    ensures
        ends(world, wanted, fetch_from(wanted, members, from, failure), questions) matches
            Search::Unavailable { reason, shown } && shown && {
            ||| reason == failure && (forall|i: int|
                from <= i < members@.len() ==> #[trigger] members@[i]@ == wanted.identity@)
            ||| exists|last: int|
                {
                    &&& from <= last < members@.len()
                    &&& (#[trigger] members@[last])@ != wanted.identity@
                    &&& reason == Some(world.answers[members@[last]@].media->Err_0)
                    &&& forall|i: int|
                        last < i < members@.len() ==> (#[trigger] members@[i])@ == wanted.identity@
                }
        },
    decreases members@.len() - from,
{
    reveal_with_fuel(ends, 3);
    if from < members@.len() {
        assert(sends_nothing(world, wanted, members@, from));
        if members@[from]@ == wanted.identity@ {
            assert(next_peer(members@, wanted.identity@, from) == next_peer(
                members@,
                wanted.identity@,
                from + 1,
            ));
            missing_media_is_reported(world, wanted, members, from + 1, failure, questions);
        } else {
            let reason = world.answers[members@[from]@].media->Err_0;
            missing_media_is_reported(
                world,
                wanted,
                members,
                from + 1,
                Some(reason),
                (questions - 1) as nat,
            );
            let end = ends(
                world,
                wanted,
                fetch_from(wanted, members, from + 1, Some(reason)),
                (questions - 1) as nat,
            );
            assert(ends(world, wanted, fetch_from(wanted, members, from, failure), questions)
                == end);
            if forall|i: int| from + 1 <= i < members@.len() ==> #[trigger] members@[i]@
                == wanted.identity@ {
                assert(members@[from]@ != wanted.identity@);
            }
        }
    }
}

/// Media of a track of the profile that this device can use is used, and no member is asked.
pub proof fn own_media_comes_first(world: World, wanted: Wanted, path: String, questions: nat)
    requires
        world.referenced,
        wanted.is_file,
        questions >= 5,
        world.reusable == Some(path) || (world.reusable is None && wanted.encoding == Encoding::Mp3
            && world.has_original && world.prepared == Some(path)),
    ensures
        ends(world, wanted, started(wanted), questions) == Search::Found(Some(path)),
{
    reveal_with_fuel(ends, 7);
}

/// Media of a track of the profile that this device cannot use comes from the first member that
/// sends it.
pub proof fn other_media_comes_from_a_member(
    world: World,
    wanted: Wanted,
    at: int,
    path: String,
    questions: nat,
)
    requires
        world.referenced,
        wanted.is_file,
        world.reusable is None,
        wanted.encoding == Encoding::Mp3 && world.has_original ==> world.prepared is None,
        world.members@.len() < usize::MAX,
        sends(world, wanted, world.members@, at, path),
        forall|i: int| 0 <= i < at ==> #[trigger] sends_nothing(world, wanted, world.members@, i),
        questions > at + 6,
    ensures
        ends(world, wanted, started(wanted), questions) == Search::Found(Some(path)),
{
    let asking = fetch_from(wanted, world.members, 0, None);
    reveal_with_fuel(ends, 7);
    let spent: nat = if wanted.encoding != Encoding::Mp3 {
        3
    } else if world.has_original {
        6
    } else {
        4
    };
    media_comes_from_the_first_member_that_sends_it(
        world,
        wanted,
        world.members,
        0,
        None,
        at,
        path,
        (questions - spent) as nat,
    );
    assert(ends(world, wanted, started(wanted), questions) == ends(
        world,
        wanted,
        asking,
        (questions - spent) as nat,
    ));
}

/// A track that the profile does not have is looked for only where its playback was received: its
/// file is used where it has come already, and else the members are asked.
pub proof fn received_playback_uses_its_file(world: World, wanted: Wanted, questions: nat)
    requires
        !world.referenced,
        questions >= 5,
    ensures
        !world.received ==> ends(world, wanted, started(wanted), questions) == Search::Found(None),
        world.received ==> (world.received_file matches Some(path) ==> ends(
            world,
            wanted,
            started(wanted),
            questions,
        ) == Search::Found(Some(path))),
        world.received && world.received_file is None ==> ends(
            world,
            wanted,
            started(wanted),
            questions,
        ) == ends(
            world,
            wanted,
            search_from(wanted, world.members, 0, None),
            (questions - 4) as nat,
        ),
{
    reveal_with_fuel(ends, 7);
}

/// A track that is no file is left to its source, once it is known.
pub proof fn tracks_without_files_need_no_search(world: World, wanted: Wanted, questions: nat)
    requires
        world.referenced,
        !wanted.is_file,
        questions >= 1,
    ensures
        ends(world, wanted, started(wanted), questions) == Search::Found(None),
{
    reveal_with_fuel(ends, 3);
}

/// A device without an open profile searches for nothing.
pub proof fn searches_need_a_profile(wanted: Wanted)
    ensures
        resolution(wanted, Phase::Session, Reply::No) == Search::Found(None),
        resolution(wanted, Phase::Session, Reply::Yes) is Ask,
{
}

/// A member that knows the track makes it one of the profile; one that does not is asked for the
/// file itself, and what it hands over is the local file from then on. A member that can do neither
/// is passed over.
pub proof fn members_are_asked_for_the_track_and_then_for_its_file(
    world: World,
    wanted: Wanted,
    members: Vec<String>,
    at: int,
    failure: Option<String>,
    questions: nat,
)
    requires
        members@.len() < usize::MAX,
        0 <= at < members@.len(),
        members@[at]@ != wanted.identity@,
        questions >= 4,
    ensures
        ({
            let member = world.answers[members@[at]@];
            let end = ends(world, wanted, search_from(wanted, members, at, failure), questions);
            &&& member.reference && wanted.is_file && world.reusable is Some ==> end
                == Search::Found(world.reusable)
            &&& member.reference && !wanted.is_file ==> end == Search::Found(None)
            &&& !member.reference && wanted.is_file && member.refuses_file is None ==> end
                == Search::Found(world.local_file)
            &&& !member.reference && wanted.is_file ==> (member.refuses_file matches Some(reason)
                ==> end == ends(
                world,
                wanted,
                search_from(wanted, members, at + 1, Some(reason)),
                (questions - 2) as nat,
            ))
            &&& !member.reference && !wanted.is_file ==> end == ends(
                world,
                wanted,
                search_from(wanted, members, at + 1, failure),
                (questions - 1) as nat,
            )
        }),
{
    assert(next_peer(members@, wanted.identity@, at) == Some(at));
    reveal_with_fuel(ends, 5);
}

/// Once no other member is left, a file is not available, for the last reason that was given; other
/// tracks are left to their source.
pub proof fn searches_end_behind_the_last_member(
    wanted: Wanted,
    members: Vec<String>,
    from: int,
    failure: Option<String>,
)
    requires
        0 <= from <= members@.len(),
        forall|i: int| from <= i < members@.len() ==> #[trigger] members@[i]@ == wanted.identity@,
    ensures
        wanted.is_file ==> search_from(wanted, members, from, failure) == (Search::Unavailable {
            reason: failure,
            shown: false,
        }),
        !wanted.is_file ==> search_from(wanted, members, from, failure) == Search::Found(None),
    decreases members@.len() - from,
{
    if from < members@.len() {
        searches_end_behind_the_last_member(wanted, members, from + 1, failure);
    }
}

} // verus!
