//! Reading the parameters of a request.

use vstd::prelude::*;
use vstd::string::*;

use crate::text::{
    chars_of, decimal, digits_value, joined, part, same, CharClass,
};
use crate::textmap::TextMap;

verus! {

/// A request that cannot be served: the status and the message of the answer.
pub struct ApiError {
    pub status: u16,
    pub message: String,
}

pub fn bad_request(message: &str) -> (result: ApiError)
    ensures
        result.status == 400,
        result.message@ == message@,
{
    ApiError { status: 400, message: message.to_owned() }
}

pub fn not_found(message: &str) -> (result: ApiError)
    ensures
        result.status == 404,
        result.message@ == message@,
{
    ApiError { status: 404, message: message.to_owned() }
}

/// The parameters of a request.
pub type Parameters = TextMap<String>;

/// The text of a parameter, where it is given.
pub open spec fn given(parameters: Map<Seq<char>, String>, key: Seq<char>) -> Option<Seq<char>> {
    if parameters.dom().contains(key) {
        Some(parameters[key]@)
    } else {
        None
    }
}

/// A text that is given and not empty.
pub open spec fn filled(parameters: Map<Seq<char>, String>, key: Seq<char>) -> bool {
    given(parameters, key) matches Some(text) && text.len() > 0
}

/// The text of a parameter that must be there.
pub fn required<'a>(parameters: &'a Parameters, key: &str) -> (result: Result<&'a str, ApiError>)
    requires
        parameters.wf(),
    ensures
        match result {
            Ok(text) => filled(parameters@, key@) && text@ == parameters@[key@]@,
            Err(error) => !filled(parameters@, key@) && error.status == 400 && error.message@
                == key@ + " is required"@,
        },
{
    if let Some(text) = parameters.get(key) {
        if !text.as_str().is_empty() {
            return Ok(text.as_str());
        }
    }
    let message = joined(key, " is required");
    Err(bad_request(message.as_str()))
}

/// What is wrong with a text that should be a number.
#[derive(Clone, Copy, Debug, PartialEq, Eq, Structural)]
pub enum NumberError {
    Empty,
    InvalidDigit,
    TooLarge,
}

impl NumberError {
    pub open spec fn message(self) -> Seq<char> {
        match self {
            NumberError::Empty => "cannot parse integer from empty string"@,
            NumberError::InvalidDigit => "invalid digit found in string"@,
            NumberError::TooLarge => "number too large to fit in target type"@,
        }
    }

    pub fn text(self) -> (result: &'static str)
        ensures
            result@ == self.message(),
    {
        match self {
            NumberError::Empty => "cannot parse integer from empty string",
            NumberError::InvalidDigit => "invalid digit found in string",
            NumberError::TooLarge => "number too large to fit in target type",
        }
    }
}

/// The digits of a number, without a plus sign before them.
pub open spec fn digits_of(s: Seq<char>) -> Seq<char> {
    if s.len() > 1 && s[0] == '+' {
        s.skip(1)
    } else {
        s
    }
}

/// The first thing that is wrong with digits: one that is none, or a value above the limit.
pub open spec fn digits_error(s: Seq<char>, limit: nat) -> Option<NumberError>
    decreases s.len(),
{
    if s.len() == 0 {
        None
    } else {
        match digits_error(s.drop_last(), limit) {
            Some(error) => Some(error),
            None => if !CharClass::Digit.has(s.last()) {
                Some(NumberError::InvalidDigit)
            } else if digits_value(s) > limit {
                Some(NumberError::TooLarge)
            } else {
                None
            },
        }
    }
}

/// What a text says of a number no greater than the limit.
pub open spec fn number_in(s: Seq<char>, limit: nat) -> Result<nat, NumberError> {
    if s.len() == 0 {
        Err(NumberError::Empty)
    } else {
        match digits_error(digits_of(s), limit) {
            Some(error) => Err(error),
            None => Ok(digits_value(digits_of(s))),
        }
    }
}

/// Reads a number as `str::parse` does for an unsigned type with the given greatest value.
pub fn parse_limited(text: &str, limit: u64) -> (result: Result<u64, NumberError>)
    ensures
        match result {
            Ok(n) => number_in(text@, limit as nat) == Ok::<nat, NumberError>(n as nat),
            Err(error) => number_in(text@, limit as nat) == Err::<nat, NumberError>(error),
        },
        result matches Ok(n) ==> n <= limit,
{
    let all = chars_of(text);
    if all.len() == 0 {
        return Err(NumberError::Empty);
    }
    let from: usize = if all.len() > 1 && all[0] == '+' {
        1
    } else {
        0
    };
    let digits = part(&all, from, all.len());
    assert(digits@ =~= digits_of(text@));
    let mut value: u64 = 0;
    let mut i: usize = 0;
    assert(digits@.take(0) =~= Seq::<char>::empty());
    while i < digits.len()
        invariant
            i <= digits@.len(),
            digits_error(digits@.take(i as int), limit as nat) is None,
            value == digits_value(digits@.take(i as int)),
            value <= limit,
            digits@ == digits_of(text@),
            text@.len() > 0,
        decreases digits@.len() - i,
    {
        let c: char = digits[i];
        proof {
            let t = digits@.take(i + 1);
            assert(t.drop_last() =~= digits@.take(i as int));
            assert(t.last() == c);
        }
        if !CharClass::Digit.contains(c) {
            proof {
                error_stays(digits@, i + 1, limit as nat);
            }
            return Err(NumberError::InvalidDigit);
        }
        let d: u64 = c as u64 - 48;
        let next: u128 = value as u128 * 10 + d as u128;
        if next > limit as u128 {
            proof {
                error_stays(digits@, i + 1, limit as nat);
            }
            return Err(NumberError::TooLarge);
        }
        value = next as u64;
        i += 1;
    }
    assert(digits@.take(i as int) =~= digits@);
    Ok(value)
}

/// Reads a number as `str::parse` does for `usize`.
pub fn parse_usize(text: &str) -> (result: Result<usize, NumberError>)
    ensures
        match result {
            Ok(n) => number_in(text@, usize::MAX as nat) == Ok::<nat, NumberError>(n as nat),
            Err(error) => number_in(text@, usize::MAX as nat) == Err::<nat, NumberError>(error),
        },
{
    match parse_limited(text, usize::MAX as u64) {
        Ok(n) => Ok(n as usize),
        Err(error) => Err(error),
    }
}

proof fn error_stays(s: Seq<char>, n: int, limit: nat)
    requires
        0 <= n <= s.len(),
        digits_error(s.take(n), limit) is Some,
    ensures
        digits_error(s, limit) == digits_error(s.take(n), limit),
    decreases s.len() - n,
{
    if n < s.len() {
        assert(s.take(n + 1).drop_last() =~= s.take(n));
        error_stays(s, n + 1, limit);
    } else {
        assert(s.take(n) =~= s);
    }
}

/// A number of the request, or the default.
pub fn number(parameters: &Parameters, key: &str, default: usize) -> (result: Result<usize, ApiError>)
    requires
        parameters.wf(),
    ensures
        match given(parameters@, key@) {
            None => result == Ok::<usize, ApiError>(default),
            Some(text) => match number_in(text, usize::MAX as nat) {
                Ok(n) => result matches Ok(value) && value == n,
                Err(expected) => result matches Err(error) && error.status == 400 && error.message@
                    == expected.message(),
            },
        },
{
    match parameters.get(key) {
        None => Ok(default),
        Some(text) => match parse_usize(text.as_str()) {
            Ok(value) => Ok(value),
            Err(error) => Err(bad_request(error.text())),
        },
    }
}

/// A number of the request, or the default, but no more than the most that is served at once.
pub fn limit(parameters: &Parameters, default: usize, most: usize) -> (result: Result<
    usize,
    ApiError,
>)
    requires
        parameters.wf(),
    ensures
        match given(parameters@, "limit"@) {
            None => result == Ok::<usize, ApiError>(
                if default < most {
                    default
                } else {
                    most
                },
            ),
            Some(text) => match number_in(text, usize::MAX as nat) {
                Ok(n) => result matches Ok(value) && value == if n < most {
                    n as int
                } else {
                    most as int
                },
                Err(expected) => result matches Err(error) && error.status == 400 && error.message@
                    == expected.message(),
            },
        },
{
    match number(parameters, "limit", default) {
        Ok(value) => Ok(
            if value < most {
                value
            } else {
                most
            },
        ),
        Err(error) => Err(error),
    }
}

/// A flag of the request: off unless it is given.
pub fn boolean(parameters: &Parameters, key: &str) -> (result: Result<bool, ApiError>)
    requires
        parameters.wf(),
    ensures
        match given(parameters@, key@) {
            None => result == Ok::<bool, ApiError>(false),
            Some(text) => if text == "true"@ {
                result == Ok::<bool, ApiError>(true)
            } else if text == "false"@ {
                result == Ok::<bool, ApiError>(false)
            } else {
                result matches Err(error) && error.status == 400 && error.message@
                    == "provided string was not `true` or `false`"@
            },
        },
{
    match parameters.get(key) {
        None => Ok(false),
        Some(text) => if same(text.as_str(), "true") {
            Ok(true)
        } else if same(text.as_str(), "false") {
            Ok(false)
        } else {
            Err(bad_request("provided string was not `true` or `false`"))
        },
    }
}

/// What `serde_json` reads from a text as a whole number, or what it says of it.
pub uninterp spec fn json_integer(text: Seq<char>) -> Result<i64, Seq<char>>;

/// A number in its plain decimal form is read as that number.
pub open spec fn reads_plainly<E>(text: Seq<char>, result: Result<i64, E>) -> bool {
    forall|n: nat|
        n <= i64::MAX && text == #[trigger] decimal(n) ==> result == Ok::<i64, E>(n as i64)
}

/// `serde_json::from_str` for `i64`: a function of the text alone. A number in its plain decimal
/// form is read as that number.
#[verifier::external_body]
fn parse_integer(text: &str) -> (result: Result<i64, String>)
    ensures
        match result {
            Ok(n) => json_integer(text@) == Ok::<i64, Seq<char>>(n),
            Err(error) => json_integer(text@) == Err::<i64, Seq<char>>(error@),
        },
        reads_plainly(text@, result),
{
    serde_json::from_str(text).map_err(|error| error.to_string())
}

/// What is read where a parameter must name a row of the library, from what its text says.
pub open spec fn key_in(
    parameters: Map<Seq<char>, String>,
    name: Seq<char>,
    read: Result<i64, Seq<char>>,
) -> Result<i64, Seq<char>> {
    if filled(parameters, name) {
        read
    } else {
        Err(name + " is required"@)
    }
}

/// The row of the library that a parameter names.
pub fn key(parameters: &Parameters, name: &str) -> (result: Result<i64, ApiError>)
    requires
        parameters.wf(),
    ensures
        match key_in(parameters@, name@, json_integer(parameters@[name@]@)) {
            Ok(key) => result == Ok::<i64, ApiError>(key),
            Err(message) => result matches Err(error) && error.status == 400 && error.message@
                == message,
        },
        filled(parameters@, name@) ==> reads_plainly(parameters@[name@]@, result),
{
    match required(parameters, name) {
        Ok(text) => match parse_integer(text) {
            Ok(key) => Ok(key),
            Err(message) => Err(bad_request(message.as_str())),
        },
        Err(error) => Err(error),
    }
}

/// How tracks are ordered.
#[derive(Clone, Copy, Debug, PartialEq, Eq, Structural)]
pub enum TrackSort {
    Title,
    TrackNumber,
    Artist,
    AlbumArtist,
    Album,
    Year,
    ReleaseDate,
    DateAdded,
    LastPlayed,
    PlayCount,
    UserRating,
    Genre,
    Bpm,
    Duration,
    Favorite,
}

pub open spec fn track_sort_of(value: Seq<char>) -> Option<TrackSort> {
    if value == "title"@ {
        Some(TrackSort::Title)
    } else if value == "track_number"@ {
        Some(TrackSort::TrackNumber)
    } else if value == "artist"@ {
        Some(TrackSort::Artist)
    } else if value == "album_artist"@ {
        Some(TrackSort::AlbumArtist)
    } else if value == "album"@ {
        Some(TrackSort::Album)
    } else if value == "year"@ {
        Some(TrackSort::Year)
    } else if value == "release_date"@ {
        Some(TrackSort::ReleaseDate)
    } else if value == "date_added"@ {
        Some(TrackSort::DateAdded)
    } else if value == "last_played"@ {
        Some(TrackSort::LastPlayed)
    } else if value == "play_count"@ {
        Some(TrackSort::PlayCount)
    } else if value == "rating"@ {
        Some(TrackSort::UserRating)
    } else if value == "genre"@ {
        Some(TrackSort::Genre)
    } else if value == "bpm"@ {
        Some(TrackSort::Bpm)
    } else if value == "duration"@ {
        Some(TrackSort::Duration)
    } else if value == "favorite"@ {
        Some(TrackSort::Favorite)
    } else {
        None
    }
}

pub fn track_sort(value: &str) -> (result: Result<TrackSort, ApiError>)
    ensures
        match track_sort_of(value@) {
            Some(sort) => result == Ok::<TrackSort, ApiError>(sort),
            None => result matches Err(error) && error.status == 400 && error.message@
                == "Unknown track sort"@,
        },
{
    if same(value, "title") {
        Ok(TrackSort::Title)
    } else if same(value, "track_number") {
        Ok(TrackSort::TrackNumber)
    } else if same(value, "artist") {
        Ok(TrackSort::Artist)
    } else if same(value, "album_artist") {
        Ok(TrackSort::AlbumArtist)
    } else if same(value, "album") {
        Ok(TrackSort::Album)
    } else if same(value, "year") {
        Ok(TrackSort::Year)
    } else if same(value, "release_date") {
        Ok(TrackSort::ReleaseDate)
    } else if same(value, "date_added") {
        Ok(TrackSort::DateAdded)
    } else if same(value, "last_played") {
        Ok(TrackSort::LastPlayed)
    } else if same(value, "play_count") {
        Ok(TrackSort::PlayCount)
    } else if same(value, "rating") {
        Ok(TrackSort::UserRating)
    } else if same(value, "genre") {
        Ok(TrackSort::Genre)
    } else if same(value, "bpm") {
        Ok(TrackSort::Bpm)
    } else if same(value, "duration") {
        Ok(TrackSort::Duration)
    } else if same(value, "favorite") {
        Ok(TrackSort::Favorite)
    } else {
        Err(bad_request("Unknown track sort"))
    }
}

} // verus!
