//! Continuing the playback of another device. Fresh player state is used, never that of a profile.

use vstd::prelude::*;

use crate::playback::plex::{RepeatMode, TransportStatus};
use crate::playback::plex_session::{progress, progress_of};
use crate::text::{same, same_option, shown};

verus! {

/// Why a continuation fails.
#[derive(Clone, Copy, Debug, PartialEq, Eq, Structural)]
pub enum ContinuationError {
    OutOfRange,
    Unavailable,
    Changed,
}

impl ContinuationError {
    pub open spec fn message(self) -> Seq<char> {
        match self {
            ContinuationError::OutOfRange => "Queue transfer offset is out of range"@,
            ContinuationError::Unavailable => "The current track is unavailable"@,
            ContinuationError::Changed => "The other device changed playback. Try continuing again."@,
        }
    }

    pub fn text(self) -> (result: &'static str)
        ensures
            result@ == self.message(),
    {
        match self {
            ContinuationError::OutOfRange => "Queue transfer offset is out of range",
            ContinuationError::Unavailable => "The current track is unavailable",
            ContinuationError::Changed => "The other device changed playback. Try continuing again.",
        }
    }
}

/// Whether there is playback to continue.
pub fn has_continuation(has_current: bool, state: TransportStatus) -> (result: bool)
    ensures
        result == (has_current && state != TransportStatus::Stopped),
{
    has_current && state != TransportStatus::Stopped
}

/// The entries of one page of a queue, from `offset` up to the end that is returned. A page holds
/// at most `limit` entries.
pub fn continuation_page(total: usize, offset: usize, limit: usize) -> (result: Result<
    usize,
    ContinuationError,
>)
    ensures
        match result {
            Ok(end) => {
                &&& offset <= end <= total
                &&& end - offset <= limit
                &&& end == if offset + limit < total {
                    offset + limit
                } else {
                    total as int
                }
            },
            Err(error) => offset > total && error == ContinuationError::OutOfRange,
        },
{
    if offset > total {
        return Err(ContinuationError::OutOfRange);
    }
    if total - offset <= limit {
        Ok(total)
    } else {
        Ok(offset + limit)
    }
}

/// Where the entry at `index` of a page stands in the queue.
pub fn canonical_position(offset: usize, index: usize) -> (result: usize)
    requires
        offset + index <= usize::MAX,
    ensures
        result == offset + index,
{
    offset + index
}

/// What a device says of its playback.
pub struct ContinuationHeader {
    pub current: String,
    /// The listen that is being recorded, where there is one.
    pub play_id: Option<String>,
    pub position_millis: u64,
    pub repeat: RepeatMode,
    pub shuffled: bool,
}

/// The playback is still the one that was prepared.
pub open spec fn same_playback(a: ContinuationHeader, b: ContinuationHeader) -> bool {
    a.current@ == b.current@ && shown(a.play_id) == shown(b.play_id)
}

/// Playback of another device that is ready to go on here.
pub struct PreparedContinuation {
    pub header: ContinuationHeader,
    pub progress_millis: i64,
    pub repeat_mode: RepeatMode,
    pub shuffled: bool,
    /// The listen that the stream belongs to.
    pub session_identifier: Option<String>,
}

/// What goes on here of the playback of another device.
pub open spec fn prepared_for(header: ContinuationHeader) -> PreparedContinuation {
    PreparedContinuation {
        header,
        progress_millis: progress_of(Some(header.position_millis)),
        repeat_mode: header.repeat,
        shuffled: header.shuffled,
        session_identifier: header.play_id,
    }
}

/// What goes on here once the other device has stopped, or nothing else where it plays something
/// else by then.
pub open spec fn applied(prepared: PreparedContinuation, last: ContinuationHeader) -> Option<
    PreparedContinuation,
> {
    if same_playback(prepared.header, last) {
        Some(
            PreparedContinuation {
                header: last,
                progress_millis: progress_of(Some(last.position_millis)),
                ..prepared
            },
        )
    } else {
        None
    }
}

/// Prepares to go on where another device is. `has_current` says that its current track was found
/// in the queue that was handed over.
pub fn prepare_continuation(header: ContinuationHeader, has_current: bool) -> (result: Result<
    PreparedContinuation,
    ContinuationError,
>)
    ensures
        match result {
            Ok(prepared) => has_current && prepared == prepared_for(header),
            Err(error) => !has_current && error == ContinuationError::Unavailable,
        },
{
    if !has_current {
        return Err(ContinuationError::Unavailable);
    }
    let session_identifier: Option<String> = match &header.play_id {
        Some(play) => Some(play.clone()),
        None => None,
    };
    Ok(
        PreparedContinuation {
            progress_millis: progress(Some(header.position_millis)),
            repeat_mode: header.repeat,
            shuffled: header.shuffled,
            session_identifier,
            header,
        },
    )
}

impl PreparedContinuation {
    /// Takes over the state that the other device had when it stopped: the position is the last
    /// one. A device that plays something else by then is left alone.
    pub fn apply_continuation(&mut self, last: ContinuationHeader) -> (result: Result<
        (),
        ContinuationError,
    >)
        ensures
            match applied(*old(self), last) {
                Some(prepared) => result == Ok::<(), ContinuationError>(()) && *final(self)
                    == prepared,
                None => result == Err::<(), ContinuationError>(ContinuationError::Changed)
                    && *final(self) == *old(self),
            },
    {
        if !same(self.header.current.as_str(), last.current.as_str()) || !same_option(
            &self.header.play_id,
            &last.play_id,
        ) {
            return Err(ContinuationError::Changed);
        }
        self.progress_millis = progress(Some(last.position_millis));
        self.header = last;
        Ok(())
    }
}

/// The start of the page that follows the page at `offset`.
pub open spec fn next_offset(total: nat, offset: nat, limit: nat) -> nat {
    if offset + limit < total {
        offset + limit
    } else {
        total
    }
}

/// How many entries the pages from `offset` on hold together.
pub open spec fn paged(total: nat, offset: nat, limit: nat) -> nat
    decreases total - offset,
{
    if offset >= total || limit == 0 {
        0
    } else {
        let end = next_offset(total, offset, limit);
        ((end - offset) + paged(total, end, limit)) as nat
    }
}

/// Page after page, a transfer reads every entry of a queue exactly once.
pub proof fn pages_cover_the_queue(total: nat, offset: nat, limit: nat)
    requires
        limit > 0,
        offset <= total,
    ensures
        paged(total, offset, limit) == total - offset,
    decreases total - offset,
{
    if offset < total {
        pages_cover_the_queue(total, next_offset(total, offset, limit), limit);
    }
}

/// Playback goes on here where the other device stopped, not where it was when that was prepared: at
/// its last position, with the same listen, and repeated and shuffled as it was. It goes on exactly
/// where the other device still played the same entry for the same listen.
pub proof fn playback_goes_on_where_the_other_device_stopped(
    first: ContinuationHeader,
    last: ContinuationHeader,
)
    ensures
        applied(prepared_for(first), last) is Some <==> first.current@ == last.current@ && shown(
            first.play_id,
        ) == shown(last.play_id),
        applied(prepared_for(first), last) matches Some(prepared) ==> {
            &&& last.position_millis <= i64::MAX ==> prepared.progress_millis
                == last.position_millis
            &&& prepared.progress_millis >= 0
            &&& shown(prepared.session_identifier) == shown(last.play_id)
            &&& prepared.repeat_mode == first.repeat
            &&& prepared.shuffled == first.shuffled
            &&& prepared.header == last
        },
{
}

} // verus!
