//! Who may use the API, and how failed attempts are held off.

use vstd::prelude::*;
use vstd::string::*;
use vstd::utf8::*;

use crate::digest::{blake3_derived, derive_key};
use crate::text::{joined, same};

verus! {

/// The address of a client.
#[derive(Clone, Copy, Debug, PartialEq, Eq, Structural)]
pub enum Address {
    V4(u32),
    V6(u128),
}

/// The failed attempts of one address: when they began, or when the last allowed one was made, and
/// how many there were. Times count nanoseconds.
#[derive(Clone, Copy, Debug, PartialEq, Eq, Structural)]
pub struct Failure {
    pub address: Address,
    pub start: u64,
    pub count: u8,
}

/// How long failures are remembered: a minute.
pub const WINDOW: u64 = 60_000_000_000;

/// How many addresses are remembered.
pub const HISTORY: usize = 1024;

/// How many failures are allowed.
pub const ATTEMPTS: u8 = 10;

/// Why a request is turned away.
#[derive(Clone, Copy, Debug, PartialEq, Eq, Structural)]
pub enum Denied {
    Unauthorized,
    /// Too many failures; the next attempt counts after some seconds.
    TooMany { retry_after: u64 },
    InvalidForm,
    /// There is no session.
    ConnectAgain,
}

impl Denied {
    pub open spec fn code(self) -> u16 {
        match self {
            Denied::Unauthorized => 401,
            Denied::TooMany { .. } => 429,
            Denied::InvalidForm => 403,
            Denied::ConnectAgain => 401,
        }
    }

    /// The status of the answer.
    pub fn status(self) -> (result: u16)
        ensures
            result == self.code(),
    {
        match self {
            Denied::Unauthorized => 401,
            Denied::TooMany { .. } => 429,
            Denied::InvalidForm => 403,
            Denied::ConnectAgain => 401,
        }
    }

    pub open spec fn message(self) -> Seq<char> {
        match self {
            Denied::Unauthorized => "A valid Bearer token is required"@,
            Denied::TooMany { .. } => "Too many failed authentication attempts. Try again shortly."@,
            Denied::InvalidForm => "Invalid form token"@,
            Denied::ConnectAgain => "Please connect again"@,
        }
    }

    pub fn text(self) -> (result: &'static str)
        ensures
            result@ == self.message(),
    {
        match self {
            Denied::Unauthorized => "A valid Bearer token is required",
            Denied::TooMany { .. } => "Too many failed authentication attempts. Try again shortly.",
            Denied::InvalidForm => "Invalid form token",
            Denied::ConnectAgain => "Please connect again",
        }
    }

    /// The seconds after which another attempt counts, for the answer's header.
    pub fn retry_after(self) -> (result: Option<u64>)
        ensures
            result == match self {
                Denied::TooMany { retry_after } => Some(retry_after),
                _ => None,
            },
    {
        match self {
            Denied::TooMany { retry_after } => Some(retry_after),
            _ => None,
        }
    }
}

/// The time since `start`.
pub open spec fn age(start: u64, now: u64) -> int {
    if now < start {
        0
    } else {
        now - start
    }
}

/// The failures that still count.
pub open spec fn live(failures: Seq<Failure>, now: u64) -> Seq<Failure>
    decreases failures.len(),
{
    if failures.len() == 0 {
        seq![]
    } else if age(failures.last().start, now) < WINDOW {
        live(failures.drop_last(), now).push(failures.last())
    } else {
        live(failures.drop_last(), now)
    }
}

/// The place of an address among failures.
pub open spec fn place_of(failures: Seq<Failure>, address: Address, from: int) -> Option<int>
    decreases failures.len() - from,
{
    if from < 0 || from >= failures.len() {
        None
    } else if failures[from].address == address {
        Some(from)
    } else {
        place_of(failures, address, from + 1)
    }
}

/// The failures after one more of an address.
pub open spec fn failed_once_more(failures: Seq<Failure>, address: Address, now: u64) -> Seq<Failure> {
    match place_of(failures, address, 0) {
        Some(i) => {
            let count = (failures[i].count + 1) as u8;
            failures.update(
                i,
                Failure {
                    address: failures[i].address,
                    start: if count == ATTEMPTS {
                        now
                    } else {
                        failures[i].start
                    },
                    count,
                },
            )
        },
        None => {
            let kept = if failures.len() == HISTORY {
                failures.drop_first()
            } else {
                failures
            };
            kept.push(Failure { address, start: now, count: 1 })
        },
    }
}

/// The address has failed too often to be heard now.
pub open spec fn held_off(failures: Seq<Failure>, address: Address) -> bool {
    place_of(failures, address, 0) matches Some(i) && failures[i].count >= ATTEMPTS
}

/// Whole seconds until a failure is forgotten, one at least.
pub open spec fn seconds_left(start: u64, now: u64) -> u64 {
    let seconds = (WINDOW - age(start, now)) / 1_000_000_000;
    if seconds < 1 {
        1
    } else {
        seconds as u64
    }
}

/// The answer to an attempt, and the failures after it: an address that has failed too often is not
/// heard, a valid token clears the failures of its address, and every other one is a failure.
pub open spec fn checked(failures: Seq<Failure>, address: Address, valid: bool, now: u64) -> (
    Result<(), Denied>,
    Seq<Failure>,
) {
    let known = live(failures, now);
    let place = place_of(known, address, 0);
    if held_off(known, address) {
        (
            Err(Denied::TooMany { retry_after: seconds_left(known[place->0].start, now) }),
            known,
        )
    } else if valid {
        (
            Ok(()),
            match place {
                Some(i) => known.remove(i),
                None => known,
            },
        )
    } else {
        (Err(Denied::Unauthorized), failed_once_more(known, address, now))
    }
}

/// The token that clients must send, the failures so far, and the key that signs sessions.
pub struct Authorization {
    token: String,
    failures: Vec<Failure>,
    browser_key: [u8; 32],
}

impl Authorization {
    /// The header that is accepted.
    pub closed spec fn accepted(&self) -> Seq<char> {
        self.token@
    }

    pub closed spec fn failures_view(&self) -> Seq<Failure> {
        self.failures@
    }

    pub closed spec fn key(&self) -> Seq<u8> {
        self.browser_key@
    }

    pub fn new(token: &str) -> (result: Self)
        ensures
            result.accepted() == "Bearer "@ + token@,
            result.failures_view() == Seq::<Failure>::empty(),
            result.key() == blake3_derived(
                "Rufin browser authentication v1"@,
                encode_utf8(token@),
            ),
    {
        Authorization {
            token: joined("Bearer ", token),
            failures: Vec::new(),
            browser_key: derive_key("Rufin browser authentication v1", token.as_bytes()),
        }
    }

    pub fn browser_key(&self) -> (result: &[u8; 32])
        ensures
            result@ == self.key(),
    {
        &self.browser_key
    }

    /// Forgets the failures that no longer count.
    fn forget(&mut self, now: u64)
        ensures
            final(self).failures@ == live(old(self).failures@, now),
            final(self).token == old(self).token,
            final(self).browser_key == old(self).browser_key,
    {
        let mut kept: Vec<Failure> = Vec::new();
        let mut i: usize = 0;
        while i < self.failures.len()
            invariant
                i <= self.failures@.len(),
                *self == *old(self),
                kept@ == live(self.failures@.take(i as int), now),
            decreases self.failures@.len() - i,
        {
            proof {
                assert(self.failures@.take(i + 1).drop_last() =~= self.failures@.take(i as int));
                assert(self.failures@.take(i + 1).last() == self.failures@[i as int]);
            }
            let failure: Failure = self.failures[i];
            if now.saturating_sub(failure.start) < WINDOW {
                kept.push(failure);
            }
            i += 1;
        }
        assert(self.failures@.take(i as int) =~= self.failures@);
        self.failures = kept;
    }

    fn find(&self, address: Address) -> (result: Option<usize>)
        ensures
            match result {
                Some(i) => place_of(self.failures@, address, 0) == Some(i as int) && i
                    < self.failures@.len(),
                None => place_of(self.failures@, address, 0) is None,
            },
    {
        let mut i: usize = 0;
        while i < self.failures.len()
            invariant
                i <= self.failures@.len(),
                place_of(self.failures@, address, 0) == place_of(
                    self.failures@,
                    address,
                    i as int,
                ),
            decreases self.failures@.len() - i,
        {
            if self.failures[i].address == address {
                return Some(i);
            }
            i += 1;
        }
        None
    }

    /// Checks the token of a request. An address that has failed too often is not heard, whatever
    /// it sends; a valid token clears its failures.
    pub fn check(&mut self, address: Address, token: Option<&str>, now: u64) -> (result: Result<
        (),
        Denied,
    >)
        ensures
            final(self).accepted() == old(self).accepted(),
            final(self).key() == old(self).key(),
            (result, final(self).failures_view()) == checked(
                old(self).failures_view(),
                address,
                token matches Some(token) && token@ == old(self).accepted(),
                now,
            ),
    {
        self.forget(now);
        let ghost failures = self.failures@;
        let previous = self.find(address);
        if let Some(i) = previous {
            let failure: Failure = self.failures[i];
            if failure.count >= ATTEMPTS {
                proof {
                    live_is_young(old(self).failures@, now, i as int);
                }
                let elapsed: u64 = now.saturating_sub(failure.start);
                let seconds: u64 = (WINDOW - elapsed) / 1_000_000_000;
                let retry_after: u64 = if seconds < 1 {
                    1
                } else {
                    seconds
                };
                return Err(Denied::TooMany { retry_after });
            }
        }
        let valid: bool = match token {
            Some(token) => same(token, self.token.as_str()),
            None => false,
        };
        if valid {
            if let Some(i) = previous {
                let _ = self.failures.remove(i);
            }
            return Ok(());
        }
        match previous {
            Some(i) => {
                let failure: Failure = self.failures[i];
                let count: u8 = failure.count + 1;
                let start: u64 = if count == ATTEMPTS {
                    now
                } else {
                    failure.start
                };
                self.failures.set(i, Failure { address: failure.address, start, count });
            },
            None => {
                if self.failures.len() == HISTORY {
                    let _ = self.failures.remove(0);
                    assert(failures.remove(0) =~= failures.drop_first());
                }
                self.failures.push(Failure { address, start: now, count: 1 });
            },
        }
        Err(Denied::Unauthorized)
    }
}

proof fn live_is_young(failures: Seq<Failure>, now: u64, i: int)
    requires
        0 <= i < live(failures, now).len(),
    ensures
        age(live(failures, now)[i].start, now) < WINDOW,
    decreases failures.len(),
{
    let earlier = live(failures.drop_last(), now);
    if i < earlier.len() {
        live_is_young(failures.drop_last(), now, i);
    }
}

/// What is remembered of an address.
pub open spec fn remembered(failures: Seq<Failure>, address: Address) -> Option<(u64, u8)> {
    match place_of(failures, address, 0) {
        Some(i) => Some((failures[i].start, failures[i].count)),
        None => None,
    }
}

/// No address is remembered twice, none with more failures than are allowed, and no more
/// addresses than the history holds.
pub open spec fn sound(failures: Seq<Failure>) -> bool {
    &&& failures.len() <= HISTORY
    &&& forall|i: int| 0 <= i < failures.len() ==> 1 <= (#[trigger] failures[i]).count <= ATTEMPTS
    &&& forall|i: int, j: int|
        0 <= i < j < failures.len() ==> (#[trigger] failures[i]).address != (
        #[trigger] failures[j]).address
}

proof fn place_is_first(failures: Seq<Failure>, address: Address, from: int)
    requires
        0 <= from,
    ensures
        match place_of(failures, address, from) {
            Some(i) => from <= i < failures.len() && failures[i].address == address && forall|j: int|
                from <= j < i ==> (#[trigger] failures[j]).address != address,
            None => forall|j: int|
                from <= j < failures.len() ==> (#[trigger] failures[j]).address != address,
        },
    decreases failures.len() - from,
{
    if from < failures.len() && failures[from].address != address {
        place_is_first(failures, address, from + 1);
    }
}

proof fn live_members(failures: Seq<Failure>, now: u64)
    ensures
        live(failures, now).len() <= failures.len(),
        forall|i: int|
            0 <= i < live(failures, now).len() ==> failures.contains(#[trigger] live(failures, now)[i]),
    decreases failures.len(),
{
    if failures.len() > 0 {
        let init = failures.drop_last();
        live_members(init, now);
        assert forall|i: int| 0 <= i < live(failures, now).len() implies failures.contains(
            #[trigger] live(failures, now)[i],
        ) by {
            if i < live(init, now).len() {
                let f = live(init, now)[i];
                assert(init.contains(f));
                let k = choose|k: int| 0 <= k < init.len() && init[k] == f;
                assert(failures[k] == f);
            } else {
                assert(failures[failures.len() - 1] == failures.last());
            }
        }
    }
}

proof fn live_sound(failures: Seq<Failure>, now: u64)
    requires
        sound(failures),
    ensures
        sound(live(failures, now)),
    decreases failures.len(),
{
    if failures.len() > 0 {
        let init = failures.drop_last();
        assert(sound(init)) by {
            assert forall|i: int| 0 <= i < init.len() implies 1 <= (#[trigger] init[i]).count
                <= ATTEMPTS by {
                assert(failures[i] == init[i]);
            }
            assert forall|i: int, j: int| 0 <= i < j < init.len() implies (
            #[trigger] init[i]).address != (#[trigger] init[j]).address by {
                assert(failures[i] == init[i] && failures[j] == init[j]);
            }
        }
        live_sound(init, now);
        live_members(init, now);
        let kept = live(init, now);
        let last = failures.last();
        assert(failures[failures.len() - 1] == last);
        assert forall|i: int| 0 <= i < kept.len() implies (#[trigger] kept[i]).address
            != last.address by {
            assert(init.contains(kept[i]));
            let k = choose|k: int| 0 <= k < init.len() && init[k] == kept[i];
            assert(failures[k] == kept[i]);
        }
        assert(live(failures, now).len() <= HISTORY);
    }
}

/// What every check keeps: each address at most once, a bounded history, and bounded counts.
pub proof fn checks_keep_the_history_sound(
    failures: Seq<Failure>,
    address: Address,
    now: u64,
)
    requires
        sound(failures),
    ensures
        sound(live(failures, now)),
        place_of(live(failures, now), address, 0) matches Some(i) ==> sound(
            live(failures, now).remove(i),
        ),
        !held_off(live(failures, now), address) ==> sound(
            failed_once_more(live(failures, now), address, now),
        ),
{
    let kept = live(failures, now);
    live_sound(failures, now);
    place_is_first(kept, address, 0);
    match place_of(kept, address, 0) {
        Some(i) => {
            let without = kept.remove(i);
            assert forall|a: int, b: int| 0 <= a < b < without.len() implies (
            #[trigger] without[a]).address != (#[trigger] without[b]).address by {
                let x = if a < i { a } else { a + 1 };
                let y = if b < i { b } else { b + 1 };
                assert(without[a] == kept[x] && without[b] == kept[y]);
            }
            assert forall|a: int| 0 <= a < without.len() implies 1 <= (#[trigger] without[a]).count
                <= ATTEMPTS by {
                let x = if a < i { a } else { a + 1 };
                assert(without[a] == kept[x]);
            }
            let after = failed_once_more(kept, address, now);
            if !held_off(kept, address) {
                assert forall|a: int, b: int| 0 <= a < b < after.len() implies (
                #[trigger] after[a]).address != (#[trigger] after[b]).address by {
                    assert(after[a].address == kept[a].address);
                    assert(after[b].address == kept[b].address);
                }
            }
        },
        None => {
            let after = failed_once_more(kept, address, now);
            let base = if kept.len() == HISTORY {
                kept.drop_first()
            } else {
                kept
            };
            let shift: int = if kept.len() == HISTORY {
                1
            } else {
                0
            };
            assert forall|a: int| 0 <= a < base.len() implies (#[trigger] base[a]) == kept[a
                + shift] by {}
            assert forall|a: int, b: int| 0 <= a < b < after.len() implies (
            #[trigger] after[a]).address != (#[trigger] after[b]).address by {
                assert(after[a] == kept[a + shift]);
                if b < base.len() {
                    assert(after[b] == kept[b + shift]);
                }
            }
            assert forall|a: int| 0 <= a < after.len() implies 1 <= (#[trigger] after[a]).count
                <= ATTEMPTS by {
                if a < base.len() {
                    assert(after[a] == kept[a + shift]);
                }
            }
        },
    }
}

/// The failures of one address do not count against another: a failure leaves what is remembered
/// of every other address as it was, as long as the history has room.
pub proof fn failures_are_separate(
    failures: Seq<Failure>,
    address: Address,
    other: Address,
    now: u64,
)
    requires
        address != other,
        failures.len() < HISTORY || place_of(failures, address, 0) is Some,
    ensures
        remembered(failed_once_more(failures, address, now), other) == remembered(failures, other),
{
    let after = failed_once_more(failures, address, now);
    place_is_first(failures, address, 0);
    place_is_first(failures, other, 0);
    place_is_first(after, other, 0);
    match place_of(failures, other, 0) {
        Some(i) => {
            assert(after[i] == failures[i]);
            let j = place_of(after, other, 0)->0;
            if j < i {
                assert(after[j].address == failures[j].address);
            }
        },
        None => {
            if let Some(j) = place_of(after, other, 0) {
                if j < failures.len() {
                    assert(after[j].address == failures[j].address);
                }
            }
        },
    }
}

/// A failure counts for a minute and no longer: afterwards the address starts anew.
pub proof fn failures_expire(failures: Seq<Failure>, address: Address, now: u64)
    requires
        forall|i: int|
            0 <= i < failures.len() && (#[trigger] failures[i]).address == address ==> age(
                failures[i].start,
                now,
            ) >= WINDOW,
    ensures
        remembered(live(failures, now), address) is None,
        !held_off(live(failures, now), address),
    decreases failures.len(),
{
    live_members(failures, now);
    place_is_first(live(failures, now), address, 0);
    if let Some(i) = place_of(live(failures, now), address, 0) {
        let f = live(failures, now)[i];
        live_is_young(failures, now, i);
        assert(failures.contains(f));
        let k = choose|k: int| 0 <= k < failures.len() && failures[k] == f;
        assert(failures[k].address == address);
    }
}

/// The last allowed failure starts the wait: the address is held off from then on, for a full
/// minute.
pub proof fn the_last_failure_starts_the_wait(failures: Seq<Failure>, address: Address, now: u64)
    requires
        place_of(failures, address, 0) matches Some(i) && failures[i].count == ATTEMPTS - 1,
    ensures
        held_off(failed_once_more(failures, address, now), address),
        remembered(failed_once_more(failures, address, now), address) == Some((now, ATTEMPTS)),
        seconds_left(now, now) == 60,
{
    let after = failed_once_more(failures, address, now);
    place_is_first(failures, address, 0);
    place_is_first(after, address, 0);
    let i = place_of(failures, address, 0)->0;
    assert(after[i].address == address);
    let j = place_of(after, address, 0)->0;
    if j < i {
        assert(after[j].address == failures[j].address);
    }
}

/// A valid token clears the failures of its address.
pub proof fn success_clears_failures(failures: Seq<Failure>, address: Address, i: int)
    requires
        sound(failures),
        place_of(failures, address, 0) == Some(i),
    ensures
        remembered(failures.remove(i), address) is None,
{
    let after = failures.remove(i);
    place_is_first(failures, address, 0);
    place_is_first(after, address, 0);
    if let Some(j) = place_of(after, address, 0) {
        let k = if j < i { j } else { j + 1 };
        assert(after[j] == failures[k]);
        if k < i {
            assert(failures[k].address != failures[i].address);
        } else {
            assert(failures[i].address != failures[k].address);
        }
    }
}

/// An attempt to be heard: from where, with a valid token or not, and when.
#[derive(Clone, Copy, Debug, PartialEq, Eq, Structural)]
pub struct Attempt {
    pub address: Address,
    pub valid: bool,
    pub now: u64,
}

/// The failures that are remembered after some attempts, from none on.
pub open spec fn failures_after(history: Seq<Attempt>) -> Seq<Failure>
    decreases history.len(),
{
    if history.len() == 0 {
        seq![]
    } else {
        let last = history.last();
        checked(failures_after(history.drop_last()), last.address, last.valid, last.now).1
    }
}

/// The answer to an attempt after others.
pub open spec fn answer(history: Seq<Attempt>, attempt: Attempt) -> Result<(), Denied> {
    checked(failures_after(history), attempt.address, attempt.valid, attempt.now).0
}

/// When a window of failures began: with its first failure, or with the last that was allowed.
pub open spec fn window_start(window: Seq<u64>) -> u64 {
    if window.len() >= ATTEMPTS {
        window[ATTEMPTS - 1]
    } else {
        window[0]
    }
}

/// The failures of a window that is still open: it closes a minute after its start.
pub open spec fn still_open(window: Seq<u64>, now: u64) -> Seq<u64> {
    if window.len() > 0 && age(window_start(window), now) < WINDOW {
        window
    } else {
        seq![]
    }
}

/// The failures of an address in its last window, by their times. A window opens with a failure
/// where none is open, and a valid token closes it; attempts of an address that is blocked, and
/// those of other addresses, do not count.
pub open spec fn window_of(history: Seq<Attempt>, address: Address) -> Seq<u64>
    decreases history.len(),
{
    if history.len() == 0 {
        seq![]
    } else {
        let earlier = window_of(history.drop_last(), address);
        let last = history.last();
        let open = still_open(earlier, last.now);
        if last.address != address {
            earlier
        } else if open.len() >= ATTEMPTS {
            open
        } else if last.valid {
            seq![]
        } else {
            open.push(last.now)
        }
    }
}

/// The window of the address holds all the failures that are allowed, the last of them less than a
/// minute ago.
pub open spec fn blocked(history: Seq<Attempt>, address: Address, now: u64) -> bool {
    let window = window_of(history, address);
    window.len() == ATTEMPTS && age(window[ATTEMPTS - 1], now) < WINDOW
}

/// The attempts of one address.
pub open spec fn own_attempts(history: Seq<Attempt>, address: Address) -> Seq<Attempt> {
    history.filter(|attempt: Attempt| attempt.address == address)
}

/// The addresses that attempts came from.
pub open spec fn addresses(history: Seq<Attempt>) -> Set<Address> {
    history.map_values(|attempt: Attempt| attempt.address).to_set()
}

/// Time does not run backwards.
pub open spec fn in_time(history: Seq<Attempt>) -> bool {
    forall|i: int, j: int|
        0 <= i < j < history.len() ==> (#[trigger] history[i]).now <= (#[trigger] history[j]).now
}

/// What is remembered of an address at a time is its window, as long as that is open.
spec fn remembers(failures: Seq<Failure>, address: Address, window: Seq<u64>, now: u64) -> bool {
    match remembered(failures, address) {
        Some((start, count)) => count == window.len() && 1 <= count <= ATTEMPTS && start
            == window_start(window),
        None => still_open(window, now).len() == 0,
    }
}

proof fn live_remembers(failures: Seq<Failure>, address: Address, now: u64)
    requires
        sound(failures),
    ensures
        remembered(live(failures, now), address) == (match remembered(failures, address) {
            Some((start, count)) => if age(start, now) < WINDOW {
                Some((start, count))
            } else {
                None
            },
            None => None,
        }),
{
    let kept = live(failures, now);
    live_members(failures, now);
    live_sound(failures, now);
    place_is_first(failures, address, 0);
    place_is_first(kept, address, 0);
    if let Some(k) = place_of(kept, address, 0) {
        live_is_young(failures, now, k);
        assert(failures.contains(kept[k]));
        let m = choose|m: int| 0 <= m < failures.len() && failures[m] == kept[k];
        let i = place_of(failures, address, 0)->0;
        if m < i {
            assert(failures[m].address != address);
        } else if i < m {
            assert(failures[i].address != failures[m].address);
        }
    } else if let Some(i) = place_of(failures, address, 0) {
        if age(failures[i].start, now) < WINDOW {
            young_stay(failures, now, i);
            let k = choose|k: int| 0 <= k < kept.len() && kept[k] == failures[i];
            assert(kept[k].address != address);
        }
    }
}

proof fn young_stay(failures: Seq<Failure>, now: u64, i: int)
    requires
        0 <= i < failures.len(),
        age(failures[i].start, now) < WINDOW,
    ensures
        live(failures, now).contains(failures[i]),
    decreases failures.len(),
{
    let init = failures.drop_last();
    let kept = live(failures, now);
    if i == failures.len() - 1 {
        assert(kept[kept.len() - 1] == failures[i]);
    } else {
        assert(init[i] == failures[i]);
        young_stay(init, now, i);
        let k = choose|k: int| 0 <= k < live(init, now).len() && live(init, now)[k] == failures[i];
        assert(kept[k] == failures[i]);
    }
}

proof fn removal_is_separate(failures: Seq<Failure>, at: int, other: Address)
    requires
        0 <= at < failures.len(),
        failures[at].address != other,
    ensures
        remembered(failures.remove(at), other) == remembered(failures, other),
{
    let after = failures.remove(at);
    place_is_first(failures, other, 0);
    place_is_first(after, other, 0);
    match place_of(failures, other, 0) {
        Some(i) => {
            let k = if i < at {
                i
            } else {
                i - 1
            };
            assert(after[k] == failures[i]);
            let j = place_of(after, other, 0)->0;
            if j < k {
                let m = if j < at {
                    j
                } else {
                    j + 1
                };
                assert(after[j] == failures[m]);
            }
        },
        None => {
            if let Some(j) = place_of(after, other, 0) {
                let m = if j < at {
                    j
                } else {
                    j + 1
                };
                assert(after[j] == failures[m]);
            }
        },
    }
}

proof fn a_failure_is_remembered(failures: Seq<Failure>, address: Address, now: u64)
    requires
        sound(failures),
        !held_off(failures, address),
    ensures
        remembered(failed_once_more(failures, address, now), address) == (match remembered(
            failures,
            address,
        ) {
            Some((start, count)) => Some(
                (
                    if count + 1 == ATTEMPTS {
                        now
                    } else {
                        start
                    },
                    (count + 1) as u8,
                ),
            ),
            None => Some((now, 1u8)),
        }),
{
    let after = failed_once_more(failures, address, now);
    place_is_first(failures, address, 0);
    place_is_first(after, address, 0);
    match place_of(failures, address, 0) {
        Some(i) => {
            assert(after[i].address == address);
            let j = place_of(after, address, 0)->0;
            if j < i {
                assert(after[j] == failures[j]);
            }
        },
        None => {
            let kept = if failures.len() == HISTORY {
                failures.drop_first()
            } else {
                failures
            };
            assert(after[kept.len() as int].address == address);
            let j = place_of(after, address, 0)->0;
            if j < kept.len() {
                let m = if failures.len() == HISTORY {
                    j + 1
                } else {
                    j
                };
                assert(after[j] == failures[m]);
            }
        },
    }
}

proof fn attempts_are_remembered(
    failures: Seq<Failure>,
    address: Address,
    window: Seq<u64>,
    before: u64,
    attempt: Attempt,
)
    requires
        sound(failures),
        remembers(failures, address, window, before),
        before <= attempt.now,
        live(failures, attempt.now).len() < HISTORY || place_of(
            live(failures, attempt.now),
            attempt.address,
            0,
        ) is Some,
    ensures
        attempt.address != address ==> remembers(
            checked(failures, attempt.address, attempt.valid, attempt.now).1,
            address,
            window,
            attempt.now,
        ),
        attempt.address == address ==> {
            let open = still_open(window, attempt.now);
            let result = checked(failures, address, attempt.valid, attempt.now);
            &&& (result.0 matches Err(Denied::TooMany { .. })) == (open.len() >= ATTEMPTS)
            &&& open.len() < ATTEMPTS ==> result.0 == if attempt.valid {
                Ok::<(), Denied>(())
            } else {
                Err(Denied::Unauthorized)
            }
            &&& remembers(
                result.1,
                address,
                if open.len() >= ATTEMPTS {
                    open
                } else if attempt.valid {
                    seq![]
                } else {
                    open.push(attempt.now)
                },
                attempt.now,
            )
        },
{
    let now = attempt.now;
    let kept = live(failures, now);
    let from = attempt.address;
    live_remembers(failures, address, now);
    live_sound(failures, now);
    place_is_first(kept, from, 0);
    let open = still_open(window, now);
    if address == from {
        if !held_off(kept, from) {
            if attempt.valid {
                if let Some(i) = place_of(kept, from, 0) {
                    success_clears_failures(kept, from, i);
                }
            } else {
                a_failure_is_remembered(kept, from, now);
                assert(open.push(now)[0] == if open.len() > 0 {
                    open[0]
                } else {
                    now
                });
            }
        }
    } else if !held_off(kept, from) {
        if attempt.valid {
            if let Some(i) = place_of(kept, from, 0) {
                removal_is_separate(kept, i, address);
            }
        } else {
            failures_are_separate(kept, from, address, now);
        }
    }
}

/// The remembered addresses are among those that attempts came from.
spec fn among(failures: Seq<Failure>, set: Set<Address>) -> bool {
    forall|i: int| 0 <= i < failures.len() ==> set.contains((#[trigger] failures[i]).address)
}

proof fn room_is_left(failures: Seq<Failure>, address: Address, set: Set<Address>)
    requires
        sound(failures),
        among(failures, set),
        set.contains(address),
        set.finite(),
        set.len() <= HISTORY,
        place_of(failures, address, 0) is None,
    ensures
        failures.len() < HISTORY,
{
    let list = failures.map_values(|failure: Failure| failure.address);
    place_is_first(failures, address, 0);
    assert forall|i: int, j: int| 0 <= i < list.len() && 0 <= j < list.len() && i != j implies list[i]
        != list[j] by {
        if i < j {
            assert(failures[i].address != failures[j].address);
        } else {
            assert(failures[j].address != failures[i].address);
        }
    }
    list.unique_seq_to_set();
    let rest = set.remove(address);
    assert forall|a: Address| list.to_set().contains(a) implies rest.contains(a) by {
        let i = choose|i: int| 0 <= i < list.len() && list[i] == a;
        assert(failures[i].address == a);
    }
    vstd::set_lib::lemma_len_subset(list.to_set(), rest);
}

proof fn checks_stay_among(
    failures: Seq<Failure>,
    attempt: Attempt,
    set: Set<Address>,
)
    requires
        among(failures, set),
        set.contains(attempt.address),
    ensures
        among(live(failures, attempt.now), set),
        among(checked(failures, attempt.address, attempt.valid, attempt.now).1, set),
{
    let kept = live(failures, attempt.now);
    live_members(failures, attempt.now);
    assert forall|i: int| 0 <= i < kept.len() implies set.contains((#[trigger] kept[i]).address) by {
        assert(failures.contains(kept[i]));
        let m = choose|m: int| 0 <= m < failures.len() && failures[m] == kept[i];
        assert(set.contains(failures[m].address));
    }
    place_is_first(kept, attempt.address, 0);
    let after = checked(failures, attempt.address, attempt.valid, attempt.now).1;
    assert forall|i: int| 0 <= i < after.len() implies set.contains(
        (#[trigger] after[i]).address,
    ) by {
        if after.len() == kept.len() {
            if !(after[i].address == attempt.address) {
                assert(kept[i].address == after[i].address || (i + 1 < kept.len() && kept[i
                    + 1].address == after[i].address));
            }
        } else if i < kept.len() && after[i].address == kept[i].address {
        } else if after[i].address != attempt.address {
            assert(kept[i + 1].address == after[i].address);
        }
    }
}

proof fn histories_are_remembered(history: Seq<Attempt>, set: Set<Address>, address: Address)
    requires
        in_time(history),
        addresses(history).subset_of(set),
        set.finite(),
        set.len() <= HISTORY,
    ensures
        sound(failures_after(history)),
        among(failures_after(history), set),
        history.len() > 0 ==> remembers(
            failures_after(history),
            address,
            window_of(history, address),
            history.last().now,
        ),
        history.len() == 0 ==> remembered(failures_after(history), address) is None && window_of(
            history,
            address,
        ).len() == 0,
        window_of(history, address).len() <= ATTEMPTS,
    decreases history.len(),
{
    if history.len() > 0 {
        let earlier = history.drop_last();
        let last = history.last();
        assert(history[history.len() - 1] == last);
        let list = history.map_values(|attempt: Attempt| attempt.address);
        assert(list[history.len() - 1] == last.address);
        assert(addresses(history).contains(last.address));
        assert forall|a: Address| addresses(earlier).contains(a) implies set.contains(a) by {
            let sub = earlier.map_values(|attempt: Attempt| attempt.address);
            let i = choose|i: int| 0 <= i < sub.len() && sub[i] == a;
            assert(list[i] == a);
            assert(addresses(history).contains(a));
        }
        assert forall|i: int, j: int| 0 <= i < j < earlier.len() implies (
        #[trigger] earlier[i]).now <= (#[trigger] earlier[j]).now by {
            assert(earlier[i] == history[i] && earlier[j] == history[j]);
        }
        histories_are_remembered(earlier, set, address);
        let failures = failures_after(earlier);
        let before = if earlier.len() > 0 {
            assert(earlier.last() == history[history.len() - 2]);
            earlier.last().now
        } else {
            0
        };
        checks_stay_among(failures, last, set);
        live_sound(failures, last.now);
        if place_of(live(failures, last.now), last.address, 0) is None {
            room_is_left(live(failures, last.now), last.address, set);
        }
        checks_keep_the_history_sound(failures, last.address, last.now);
        attempts_are_remembered(failures, address, window_of(earlier, address), before, last);
    }
}

/// Over a whole history of attempts, from at most as many addresses as are remembered: an address
/// is turned away for too many failures exactly if its last window holds all that are allowed, the
/// last of them less than a minute ago. Otherwise a valid token is accepted, and every other attempt
/// is refused as unauthorized.
pub proof fn addresses_are_blocked_for_their_failures(history: Seq<Attempt>, attempt: Attempt)
    requires
        in_time(history.push(attempt)),
        addresses(history.push(attempt)).len() <= HISTORY,
    ensures
        (answer(history, attempt) matches Err(Denied::TooMany { .. })) == blocked(
            history,
            attempt.address,
            attempt.now,
        ),
        !blocked(history, attempt.address, attempt.now) ==> answer(history, attempt)
            == if attempt.valid {
            Ok::<(), Denied>(())
        } else {
            Err(Denied::Unauthorized)
        },
{
    let all = history.push(attempt);
    let set = addresses(all);
    let list = all.map_values(|attempt: Attempt| attempt.address);
    assert(list[history.len() as int] == attempt.address);
    assert(set.contains(attempt.address));
    assert forall|a: Address| addresses(history).contains(a) implies set.contains(a) by {
        let sub = history.map_values(|attempt: Attempt| attempt.address);
        let i = choose|i: int| 0 <= i < sub.len() && sub[i] == a;
        assert(list[i] == a);
    }
    assert forall|i: int, j: int| 0 <= i < j < history.len() implies (#[trigger] history[i]).now <= (
    #[trigger] history[j]).now by {
        assert(all[i] == history[i] && all[j] == history[j]);
    }
    assert(set.finite());
    histories_are_remembered(history, set, attempt.address);
    let failures = failures_after(history);
    let before = if history.len() > 0 {
        assert(all[history.len() - 1] == history.last());
        assert(all[history.len() as int] == attempt);
        history.last().now
    } else {
        0
    };
    checks_stay_among(failures, attempt, set);
    live_sound(failures, attempt.now);
    if place_of(live(failures, attempt.now), attempt.address, 0) is None {
        room_is_left(live(failures, attempt.now), attempt.address, set);
    }
    attempts_are_remembered(
        failures,
        attempt.address,
        window_of(history, attempt.address),
        before,
        attempt,
    );
}

/// Attempts of other addresses change nothing: the window of an address is that of its own attempts
/// alone.
pub proof fn windows_are_separate(history: Seq<Attempt>, address: Address)
    ensures
        window_of(history, address) == window_of(own_attempts(history, address), address),
    decreases history.len(),
{
    reveal(Seq::filter);
    if history.len() > 0 {
        let own = own_attempts(history, address);
        let earlier = own_attempts(history.drop_last(), address);
        windows_are_separate(history.drop_last(), address);
        if history.last().address == address {
            assert(own == earlier.push(history.last()));
            assert(own.drop_last() =~= earlier);
        } else {
            assert(own == earlier);
        }
    }
}

} // verus!
