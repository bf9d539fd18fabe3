//! The diagnostic log: what is kept in memory, when files rotate, and how events are written.

use std::collections::VecDeque;

use vstd::prelude::*;
use vstd::string::*;
use vstd::utf8::*;

use crate::redaction::{
    field_text, free_text, path_summary, sanitize_field, sanitize_free_text, summarize_path,
};
use crate::text::{
    bytes_len, chars_of, decimal, decimal_text, encode_split, flat, flat_push, head_within, joined,
    keep_head, keep_tail, lossy_text, lower_chars, lowered, matches_at, same, shown, starts_with,
    string_of, tail_is_short, tail_within, text_bytes, texts, trim, trimmed, utf8_lossy,
};

verus! {

pub const BUFFER_MAX_BYTES: usize = 2097152;

pub const LOG_SEGMENT_MAX_BYTES: u64 = 2097152;

/// The bytes that a list of texts takes.
pub open spec fn total_bytes(list: Seq<Seq<char>>) -> nat
    decreases list.len(),
{
    if list.len() == 0 {
        0
    } else {
        bytes_len(list[0]) + total_bytes(list.drop_first())
    }
}

proof fn total_push(list: Seq<Seq<char>>, last: Seq<char>)
    ensures
        total_bytes(list.push(last)) == total_bytes(list) + bytes_len(last),
    decreases list.len(),
{
    let longer = list.push(last);
    if list.len() == 0 {
        assert(longer.drop_first() =~= Seq::<Seq<char>>::empty());
        reveal_with_fuel(total_bytes, 2);
    } else {
        assert(longer.drop_first() =~= list.drop_first().push(last));
        total_push(list.drop_first(), last);
    }
}

/// The latest entries that take at most `room` bytes together.
pub open spec fn latest_within(list: Seq<Seq<char>>, room: nat) -> Seq<Seq<char>>
    decreases list.len(),
{
    if list.len() == 0 || total_bytes(list) <= room {
        list
    } else {
        latest_within(list.drop_first(), room)
    }
}

/// The entries after one more is pushed: the entry is cut to the end that the buffer can hold, and
/// the oldest entries leave until it fits.
pub open spec fn pushed(list: Seq<Seq<char>>, text: Seq<char>) -> Seq<Seq<char>> {
    let kept = tail_within(text, BUFFER_MAX_BYTES as nat);
    latest_within(list, (BUFFER_MAX_BYTES - bytes_len(kept)) as nat).push(kept)
}

/// The number after a revision; the greatest is followed by zero.
pub open spec fn counted(revision: u64) -> u64 {
    if revision == u64::MAX {
        0
    } else {
        (revision + 1) as u64
    }
}

/// The latest log entries, bounded in bytes.
pub struct DiagnosticOutput {
    entries: VecDeque<String>,
    bytes: usize,
    revision: u64,
}

impl DiagnosticOutput {
    pub closed spec fn entries_view(&self) -> Seq<Seq<char>> {
        texts(self.entries@)
    }

    pub closed spec fn revision_view(&self) -> u64 {
        self.revision
    }

    /// The byte count is that of the entries.
    pub closed spec fn wf(&self) -> bool {
        self.bytes == total_bytes(texts(self.entries@))
    }

    pub fn new() -> (result: Self)
        ensures
            result.wf(),
            result.entries_view() == Seq::<Seq<char>>::empty(),
            result.revision_view() == 0,
    {
        let entries: VecDeque<String> = VecDeque::new();
        let result = DiagnosticOutput { entries, bytes: 0, revision: 0 };
        assert(texts(result.entries@) =~= Seq::<Seq<char>>::empty());
        result
    }

    /// The log of a session whose log file could not be opened: it starts with a warning.
    pub fn without_file(error: &str, homes: &[String]) -> (result: Self)
        ensures
            result.wf(),
            result.entries_view() == seq![
                free_text(
                    "WARN rufin::diagnostics: local log file is unavailable: "@ + error@ + "\n"@,
                    texts(homes@),
                ),
            ],
            result.revision_view() == 1,
    {
        let mut warning = joined("WARN rufin::diagnostics: local log file is unavailable: ", error);
        warning.append("\n");
        let text = sanitize_free_text(warning.as_str(), homes);
        let bytes: usize = text_bytes(text.as_str());
        let mut entries: VecDeque<String> = VecDeque::new();
        let ghost entry = text@;
        entries.push_back(text);
        proof {
            assert(texts(entries@) =~= seq![entry]);
            reveal_with_fuel(total_bytes, 2);
            assert(seq![entry].drop_first() =~= Seq::<Seq<char>>::empty());
        }
        DiagnosticOutput { entries, bytes, revision: 1 }
    }

    pub fn push_bounded(&mut self, text: String)
        requires
            old(self).wf(),
        ensures
            final(self).wf(),
            final(self).entries_view() == pushed(old(self).entries_view(), text@),
            final(self).revision_view() == old(self).revision_view(),
    {
        let kept = keep_tail(text.as_str(), BUFFER_MAX_BYTES);
        let length: usize = text_bytes(kept.as_str());
        let ghost added = kept@;
        proof {
            tail_is_short(text@, BUFFER_MAX_BYTES as nat);
        }
        let room: usize = BUFFER_MAX_BYTES - length;
        let ghost start = texts(self.entries@);
        while self.bytes > room
            invariant
                self.wf(),
                self.revision == old(self).revision,
                latest_within(texts(self.entries@), room as nat) == latest_within(
                    start,
                    room as nat,
                ),
            decreases self.entries@.len(),
        {
            let ghost list = texts(self.entries@);
            match self.entries.pop_front() {
                Some(removed) => {
                    proof {
                        assert(list[0] == removed@);
                        assert(list.drop_first() =~= texts(self.entries@));
                    }
                    self.bytes -= text_bytes(removed.as_str());
                },
                None => {
                    assert(list =~= Seq::<Seq<char>>::empty());
                    assert(false);
                },
            }
        }
        self.bytes += length;
        proof {
            total_push(texts(self.entries@), added);
            assert(texts(self.entries@.push(kept)) =~= texts(self.entries@).push(added));
        }
        self.entries.push_back(kept);
    }

    /// Adds an entry to the buffer and counts the change.
    pub fn append(&mut self, text: String)
        requires
            old(self).wf(),
        ensures
            final(self).wf(),
            final(self).entries_view() == pushed(old(self).entries_view(), text@),
            final(self).revision_view() == counted(old(self).revision_view()),
    {
        self.push_bounded(text);
        self.revision = self.revision.wrapping_add(1);
    }

    /// Adds what a writer has gathered, unless it gathered nothing.
    pub fn persist(&mut self, pending: &[u8])
        requires
            old(self).wf(),
        ensures
            final(self).wf(),
            pending@.len() == 0 ==> *final(self) == *old(self),
            pending@.len() > 0 ==> final(self).entries_view() == pushed(
                old(self).entries_view(),
                utf8_lossy(pending@),
            ) && final(self).revision_view() == counted(old(self).revision_view()),
    {
        if pending.len() > 0 {
            self.append(lossy_text(pending));
        }
    }

    /// Adds the report that an earlier session left when it crashed.
    pub fn import_previous_panic_report(&mut self, report: &str, homes: &[String])
        requires
            old(self).wf(),
        ensures
            final(self).wf(),
            final(self).entries_view() == pushed(
                old(self).entries_view(),
                "Previous Rufin crash report:\n"@ + free_text(report@, texts(homes@)) + "\n"@,
            ),
            final(self).revision_view() == counted(old(self).revision_view()),
    {
        let mut text = joined(
            "Previous Rufin crash report:\n",
            sanitize_free_text(report, homes).as_str(),
        );
        text.append("\n");
        self.append(text);
    }

    pub fn revision(&self) -> (result: u64)
        ensures
            result == self.revision_view(),
    {
        self.revision
    }

    /// All entries as one text.
    pub fn snapshot(&self) -> (result: String)
        ensures
            result@ == flat(self.entries_view()),
    {
        let mut result = String::new();
        let ghost list = texts(self.entries@);
        let mut i: usize = 0;
        assert(list.skip(0) =~= list);
        assert(result@ + flat(list) =~= flat(list));
        while i < self.entries.len()
            invariant
                i <= self.entries@.len(),
                list == texts(self.entries@),
                result@ + flat(list.skip(i as int)) == flat(list),
            decreases self.entries@.len() - i,
        {
            let ghost held = result@;
            result.append(self.entries[i].as_str());
            proof {
                let rest = list.skip(i as int);
                assert(rest[0] == list[i as int]);
                assert(rest.drop_first() =~= list.skip(i + 1));
                assert(result@ + flat(list.skip(i + 1)) =~= held + flat(rest));
            }
            i += 1;
        }
        assert(list.skip(i as int) =~= Seq::<Seq<char>>::empty());
        assert(result@ =~= flat(list));
        result
    }
}

proof fn latest_is_short(list: Seq<Seq<char>>, room: nat)
    ensures
        total_bytes(latest_within(list, room)) <= room,
        latest_within(list, room).len() <= list.len(),
        latest_within(list, room) == list.skip(list.len() - latest_within(list, room).len()),
    decreases list.len(),
{
    if list.len() == 0 || total_bytes(list) <= room {
        assert(list.skip(0) =~= list);
    } else {
        latest_is_short(list.drop_first(), room);
        let kept = latest_within(list, room);
        assert(kept =~= list.skip(list.len() - kept.len()));
    }
}

proof fn flat_bytes(list: Seq<Seq<char>>)
    ensures
        bytes_len(flat(list)) == total_bytes(list),
    decreases list.len(),
{
    if list.len() > 0 {
        flat_bytes(list.drop_first());
        encode_split(list[0], flat(list.drop_first()));
    }
}

/// After a push the whole log fits the buffer, it ends in the end of the pushed text, and what
/// stands before that are the latest of the earlier entries, unchanged.
pub proof fn buffer_keeps_a_bounded_tail(list: Seq<Seq<char>>, text: Seq<char>)
    ensures
        bytes_len(flat(pushed(list, text))) <= BUFFER_MAX_BYTES,
        bytes_len(text) <= BUFFER_MAX_BYTES ==> pushed(list, text).last() == text,
        exists|n: int|
            0 <= n <= list.len() && pushed(list, text) == #[trigger] list.skip(n).push(
                tail_within(text, BUFFER_MAX_BYTES as nat),
            ),
        exists|start: Seq<char>|
            flat(pushed(list, text)) == #[trigger] (start + tail_within(
                text,
                BUFFER_MAX_BYTES as nat,
            )),
{
    let kept = tail_within(text, BUFFER_MAX_BYTES as nat);
    let room = (BUFFER_MAX_BYTES - bytes_len(kept)) as nat;
    let earlier = latest_within(list, room);
    tail_is_short(text, BUFFER_MAX_BYTES as nat);
    latest_is_short(list, room);
    total_push(earlier, kept);
    flat_bytes(earlier.push(kept));
    flat_push(earlier, kept);
    assert(pushed(list, text) == list.skip(list.len() - earlier.len()).push(kept));
    assert(flat(pushed(list, text)) == flat(earlier) + kept);
}

/// What one append does to the log file.
#[derive(Clone, Copy, Debug, PartialEq, Eq, Structural)]
pub struct LogWrite {
    /// The files rotate and a fresh one is opened first.
    pub rotate: bool,
    /// How many bytes at the start are left out.
    pub skip: usize,
}

/// The file of the log: how many bytes its current segment holds.
#[derive(Clone, Copy, Debug, PartialEq, Eq, Structural)]
pub struct RotatingLog {
    pub bytes: u64,
}

impl RotatingLog {
    pub fn open() -> (result: Self)
        ensures
            result.bytes == 0,
    {
        RotatingLog { bytes: 0 }
    }

    /// Counts an append of `length` bytes and says how it is made. A segment that holds something
    /// and would grow too large gives way to a fresh one, and of an overlong text the end is kept.
    pub fn append(&mut self, length: usize) -> (result: LogWrite)
        ensures
            result.rotate == (old(self).bytes > 0 && old(self).bytes + length
                > LOG_SEGMENT_MAX_BYTES),
            result.skip == if length > LOG_SEGMENT_MAX_BYTES {
                length - LOG_SEGMENT_MAX_BYTES
            } else {
                0
            },
            final(self).bytes == {
                let held: int = if result.rotate {
                    0
                } else {
                    old(self).bytes as int
                };
                if held + (length - result.skip) > u64::MAX {
                    u64::MAX as int
                } else {
                    held + (length - result.skip)
                }
            },
            old(self).bytes <= LOG_SEGMENT_MAX_BYTES ==> final(self).bytes <= LOG_SEGMENT_MAX_BYTES,
    {
        let added: u64 = length as u64;
        let rotate: bool = self.bytes > 0 && self.bytes.saturating_add(added)
            > LOG_SEGMENT_MAX_BYTES;
        if rotate {
            self.bytes = 0;
        }
        let skip: usize = if added > LOG_SEGMENT_MAX_BYTES {
            length - LOG_SEGMENT_MAX_BYTES as usize
        } else {
            0
        };
        self.bytes = self.bytes.saturating_add((length - skip) as u64);
        LogWrite { rotate, skip }
    }
}

/// One step of a rotation: a file that exists is renamed, or removed.
pub struct RotationStep {
    pub from: String,
    pub to: Option<String>,
}

pub open spec fn rotates(base: Seq<char>, steps: Seq<RotationStep>) -> bool {
    &&& steps.len() == 3
    &&& steps[0].from@ == base + ".2"@
    &&& steps[0].to is None
    &&& steps[1].from@ == base + ".1"@
    &&& shown(steps[1].to) == Some(base + ".2"@)
    &&& steps[2].from@ == base
    &&& shown(steps[2].to) == Some(base + ".1"@)
}

/// The steps by which the segments of a log move on: the oldest goes, each other takes the next
/// number, and the current one the first.
pub fn rotate_files(base: &str) -> (result: Vec<RotationStep>)
    ensures
        rotates(base@, result@),
{
    let mut steps: Vec<RotationStep> = Vec::new();
    steps.push(RotationStep { from: joined(base, ".2"), to: None });
    steps.push(RotationStep { from: joined(base, ".1"), to: Some(joined(base, ".2")) });
    steps.push(RotationStep { from: base.to_owned(), to: Some(joined(base, ".1")) });
    steps
}

/// The writer of an event's fields.
#[derive(Clone, Copy, Debug, PartialEq, Eq, Structural)]
pub struct PrivacyVisitor {
    pub empty: bool,
}

impl PrivacyVisitor {
    /// The text that one more field adds: fields are parted by a space, and the message stands
    /// without its name.
    pub fn record_value(&mut self, name: &str, value: &str, homes: &[String]) -> (result: String)
        ensures
            result@ == (if old(self).empty {
                seq![]
            } else {
                " "@
            }) + (if name@ == "message"@ {
                seq![]
            } else {
                name@ + "="@
            }) + field_text(name@, value@, texts(homes@)),
            !final(self).empty,
    {
        let mut output = String::new();
        if !self.empty {
            output.append(" ");
        }
        self.empty = false;
        if !same(name, "message") {
            output.append(name);
            output.append("=");
        }
        output.append(sanitize_field(name, value, homes).as_str());
        assert(output@ =~= (if old(self).empty {
            seq![]
        } else {
            " "@
        }) + (if name@ == "message"@ {
            seq![]
        } else {
            name@ + "="@
        }) + field_text(name@, value@, texts(homes@)));
        output
    }
}

/// The levels of the native libraries' messages.
#[derive(Clone, Copy, Debug, PartialEq, Eq, Structural)]
pub enum NativeLevel {
    Error,
    Critical,
    Warning,
    Message,
    Info,
    Debug,
}

/// The levels of the log.
#[derive(Clone, Copy, Debug, PartialEq, Eq, Structural)]
pub enum EventLevel {
    Error,
    Warn,
    Info,
    Debug,
    Trace,
}

/// The level at which a native message is logged. GTK's notes on icon snapshots are mere traces.
pub open spec fn native_event_level(
    domain: Seq<char>,
    level: NativeLevel,
    message: Seq<char>,
) -> EventLevel {
    match level {
        NativeLevel::Error | NativeLevel::Critical => EventLevel::Error,
        NativeLevel::Warning => EventLevel::Warn,
        NativeLevel::Message | NativeLevel::Info => EventLevel::Info,
        NativeLevel::Debug => if domain == "Gtk"@ && matches_at(
            message,
            0,
            "snapshot symbolic icon "@,
        ) {
            EventLevel::Trace
        } else {
            EventLevel::Debug
        },
    }
}

/// The domain and the level under which a native message is logged.
pub fn record_glib_log(domain: Option<&str>, level: NativeLevel, message: &str) -> (result: (
    String,
    EventLevel,
))
    ensures
        result.0@ == match domain {
            Some(domain) => domain@,
            None => "GLib"@,
        },
        result.1 == native_event_level(result.0@, level, message@),
{
    let domain = match domain {
        Some(domain) => domain.to_owned(),
        None => "GLib".to_owned(),
    };
    let event = match level {
        NativeLevel::Error => EventLevel::Error,
        NativeLevel::Critical => EventLevel::Error,
        NativeLevel::Warning => EventLevel::Warn,
        NativeLevel::Message => EventLevel::Info,
        NativeLevel::Info => EventLevel::Info,
        NativeLevel::Debug => if same(domain.as_str(), "Gtk") && starts_with(
            message,
            "snapshot symbolic icon ",
        ) {
            EventLevel::Trace
        } else {
            EventLevel::Debug
        },
    };
    (domain, event)
}

pub open spec fn asks_for_debug(value: Seq<char>) -> bool {
    lowered(trimmed(value)) == "debug"@
}

fn wants_debug(value: &str) -> (result: bool)
    ensures
        result == asks_for_debug(value@),
{
    let lower = lower_chars(&chars_of(trim(value).as_str()));
    same(string_of(&lower).as_str(), "debug")
}

/// Whether the session starts with debug logging, by the value of `RUST_LOG`.
pub fn startup_debug_enabled(rust_log: Option<&str>) -> (result: bool)
    ensures
        result == (rust_log matches Some(value) && asks_for_debug(value@)),
{
    match rust_log {
        Some(value) => wants_debug(value),
        None => false,
    }
}

/// The filter that a session starts with.
pub enum StartupFilter {
    /// A filter of the user's own; the profile stands in where it cannot be read.
    Custom(String),
    Profile(&'static str),
}

pub open spec fn profile_text(debug_enabled: bool) -> Seq<char> {
    if debug_enabled {
        "warn,metadata_lookup=debug,artwork=debug,desktop_integration=debug,library=debug,lyrics=debug,playback=debug,playback_gstreamer=debug,rufin=debug,scrobbling=debug,secrets=debug,sources=debug,ui=debug,lofty=error"@
    } else {
        "warn,metadata_lookup=info,artwork=info,desktop_integration=info,library=info,lyrics=info,playback=info,playback_gstreamer=info,rufin=info,scrobbling=info,secrets=info,sources=info,ui=info,lofty=error"@
    }
}

pub fn profile_filter(debug_enabled: bool) -> (result: &'static str)
    ensures
        result@ == profile_text(debug_enabled),
{
    if debug_enabled {
        "warn,metadata_lookup=debug,artwork=debug,desktop_integration=debug,library=debug,lyrics=debug,playback=debug,playback_gstreamer=debug,rufin=debug,scrobbling=debug,secrets=debug,sources=debug,ui=debug,lofty=error"
    } else {
        "warn,metadata_lookup=info,artwork=info,desktop_integration=info,library=info,lyrics=info,playback=info,playback_gstreamer=info,rufin=info,scrobbling=info,secrets=info,sources=info,ui=info,lofty=error"
    }
}

pub fn startup_filter(rust_log: Option<&str>, debug_enabled: bool) -> (result: StartupFilter)
    ensures
        match result {
            StartupFilter::Custom(custom) => rust_log matches Some(value) && custom@ == value@
                && trimmed(value@).len() > 0 && !asks_for_debug(value@),
            StartupFilter::Profile(profile) => profile@ == profile_text(debug_enabled) && (
            rust_log matches Some(value) ==> trimmed(value@).len() == 0 || asks_for_debug(value@)),
        },
{
    if let Some(value) = rust_log {
        let inner = trim(value);
        if !inner.as_str().is_empty() && !wants_debug(value) {
            return StartupFilter::Custom(value.to_owned());
        }
    }
    StartupFilter::Profile(profile_filter(debug_enabled))
}

/// Where a panic came from.
pub struct PanicLocation {
    pub file: String,
    pub line: u32,
    pub column: u32,
}

pub open spec fn location_text(location: Option<PanicLocation>) -> Seq<char> {
    match location {
        Some(at) => path_summary(at.file@) + ":"@ + decimal(at.line as nat) + ":"@ + decimal(
            at.column as nat,
        ),
        None => "unknown"@,
    }
}

pub open spec fn or_else(text: Option<String>, other: Seq<char>) -> Seq<char> {
    match text {
        Some(text) => text@,
        None => other,
    }
}

pub open spec fn report_text(
    version: Seq<char>,
    thread: Option<String>,
    location: Option<PanicLocation>,
    message: Option<String>,
    backtrace: Seq<char>,
) -> Seq<char> {
    "Rufin "@ + version + "\nthread: "@ + or_else(thread, "unnamed"@) + "\nlocation: "@
        + location_text(location) + "\nmessage: "@ + or_else(message, "non-string panic payload"@)
        + "\n\n"@ + backtrace + "\n"@
}

/// The report on a panic, without private facts and cut to the size of the buffer.
pub fn panic_report(
    version: &str,
    thread: &Option<String>,
    location: &Option<PanicLocation>,
    message: &Option<String>,
    backtrace: &str,
    homes: &[String],
) -> (result: String)
    ensures
        result@ == head_within(
            free_text(
                report_text(version@, *thread, *location, *message, backtrace@),
                texts(homes@),
            ),
            BUFFER_MAX_BYTES as nat,
        ),
{
    let mut report = joined("Rufin ", version);
    report.append("\nthread: ");
    match thread {
        Some(name) => report.append(name.as_str()),
        None => report.append("unnamed"),
    }
    report.append("\nlocation: ");
    let mut place = String::new();
    match location {
        Some(at) => {
            place.append(summarize_path(at.file.as_str()).as_str());
            place.append(":");
            place.append(decimal_text(at.line as u64).as_str());
            place.append(":");
            place.append(decimal_text(at.column as u64).as_str());
        },
        None => place.append("unknown"),
    }
    assert(place@ =~= location_text(*location));
    report.append(place.as_str());
    report.append("\nmessage: ");
    match message {
        Some(text) => report.append(text.as_str()),
        None => report.append("non-string panic payload"),
    }
    report.append("\n\n");
    report.append(backtrace);
    report.append("\n");
    let clean = sanitize_free_text(report.as_str(), homes);
    keep_head(clean.as_str(), BUFFER_MAX_BYTES)
}

/// The files of a folder once a step of a rotation was made: a file that exists gets its new name, or
/// is gone.
pub open spec fn moved_on(files: Map<Seq<char>, Seq<char>>, step: RotationStep) -> Map<
    Seq<char>,
    Seq<char>,
> {
    if !files.dom().contains(step.from@) {
        files
    } else {
        match step.to {
            Some(to) => files.remove(step.from@).insert(to@, files[step.from@]),
            None => files.remove(step.from@),
        }
    }
}

/// A rotation makes room for a new segment and loses nothing but the oldest: what the log held is its
/// first earlier segment, what that held is the second, and every other file stays.
pub proof fn rotations_lose_only_the_oldest(
    base: Seq<char>,
    steps: Seq<RotationStep>,
    files: Map<Seq<char>, Seq<char>>,
    other: Seq<char>,
)
    requires
        rotates(base, steps),
        files.dom().contains(base),
        files.dom().contains(base + ".1"@),
    ensures
        ({
            let after = moved_on(moved_on(moved_on(files, steps[0]), steps[1]), steps[2]);
            &&& !after.dom().contains(base)
            &&& after.dom().contains(base + ".1"@) && after[base + ".1"@] == files[base]
            &&& after.dom().contains(base + ".2"@) && after[base + ".2"@] == files[base + ".1"@]
            &&& other != base && other != base + ".1"@ && other != base + ".2"@ ==> (
            after.dom().contains(other) == files.dom().contains(other) && (files.dom().contains(
                other,
            ) ==> after[other] == files[other]))
        }),
{
    reveal_strlit(".1");
    reveal_strlit(".2");
    let first = base + ".1"@;
    let second = base + ".2"@;
    assert(first[first.len() - 1] == '1' && second[second.len() - 1] == '2');
    assert(first.len() == base.len() + 2 && second.len() == base.len() + 2);
}

/// How serious a level is.
pub open spec fn weight(level: EventLevel) -> int {
    match level {
        EventLevel::Error => 4,
        EventLevel::Warn => 3,
        EventLevel::Info => 2,
        EventLevel::Debug => 1,
        EventLevel::Trace => 0,
    }
}

/// Native messages are logged no less seriously than they were meant: errors as errors, warnings as
/// warnings and notes as notes; only what was for finding faults can become less.
pub proof fn native_messages_keep_their_weight(
    domain: Seq<char>,
    level: NativeLevel,
    message: Seq<char>,
)
    ensures
        ({
            let found = weight(native_event_level(domain, level, message));
            &&& level == NativeLevel::Error || level == NativeLevel::Critical ==> found == 4
            &&& level == NativeLevel::Warning ==> found == 3
            &&& level == NativeLevel::Message || level == NativeLevel::Info ==> found == 2
            &&& level == NativeLevel::Debug ==> found <= 1
            &&& level == NativeLevel::Debug && domain != "Gtk"@ ==> found == 1
        }),
{
}

} // verus!
