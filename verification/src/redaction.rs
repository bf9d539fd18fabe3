//! Keeping private facts out of the logs: paths, URLs and credentials.

use vstd::prelude::*;
use vstd::relations::sorted_by;
use vstd::seq_lib::*;
use vstd::string::*;

use crate::text::{
    chars_of, contains_chars, find, found, found_is_least, first, first_is_least, holds, joined,
    is_white, join_texts, joined_by, lower_chars, lowered, matches_at, matches_here, part, position, push_chars,
    push_part, same, string_of, strip_chars_end, strip_chars_start, strip_prefixes, strip_suffixes,
    texts, trim_by, trim_chars, trim_chars_end, trim_end_by, trimmed, CharClass,
};

verus! {

/// The last component of a path that is not empty.
pub open spec fn last_component(s: Seq<char>) -> Option<Seq<char>> {
    let t = trim_end_by(s, CharClass::Separator);
    if t.len() == 0 {
        None
    } else {
        Some(t.skip(after_last_separator(t)))
    }
}

/// The position behind the last separator, or the start.
pub open spec fn after_last_separator(s: Seq<char>) -> int
    decreases s.len(),
{
    if s.len() == 0 {
        0
    } else if CharClass::Separator.has(s.last()) {
        s.len() as int
    } else {
        after_last_separator(s.drop_last())
    }
}

/// A path as it stands in a debug print, without its quotes.
pub open spec fn bare_path(s: Seq<char>) -> Seq<char> {
    strip_suffixes(
        strip_prefixes(trim_by(trimmed(s), CharClass::Only('"')), "Some(\""@),
        "\")"@,
    )
}

pub open spec fn path_summary(s: Seq<char>) -> Seq<char> {
    match last_component(bare_path(s)) {
        Some(name) => "<local>/"@ + name,
        None => "<local>"@,
    }
}

fn behind_last_separator(chars: &[char]) -> (result: usize)
    ensures
        result == after_last_separator(chars@),
        result <= chars@.len(),
{
    let mut end: usize = chars.len();
    assert(chars@.take(end as int) =~= chars@);
    while end > 0 && !CharClass::Separator.contains(chars[end - 1])
        invariant
            end <= chars@.len(),
            after_last_separator(chars@) == after_last_separator(chars@.take(end as int)),
        decreases end,
    {
        proof {
            let t = chars@.take(end as int);
            assert(t.last() == chars@[end - 1]);
            assert(t.drop_last() =~= chars@.take(end - 1));
        }
        end -= 1;
    }
    proof {
        let t = chars@.take(end as int);
        if end > 0 {
            assert(t.last() == chars@[end - 1]);
        }
    }
    end
}

fn summarize_path_chars(value: &[char]) -> (result: Vec<char>)
    ensures
        result@ == path_summary(value@),
{
    proof {
        reveal_strlit("Some(\"");
        reveal_strlit("\")");
    }
    let inner = trim_chars(value, CharClass::White);
    let unquoted = trim_chars(&inner, CharClass::Only('"'));
    let prefix = chars_of("Some(\"");
    let suffix = chars_of("\")");
    let opened = strip_chars_start(&unquoted, &prefix);
    let bare = strip_chars_end(&opened, &suffix);
    let named = trim_chars_end(&bare, CharClass::Separator);
    if named.len() == 0 {
        return chars_of("<local>");
    }
    let start: usize = behind_last_separator(&named);
    let mut output = chars_of("<local>/");
    push_part(&mut output, &named, start, named.len());
    assert(named@.subrange(start as int, named@.len() as int) =~= named@.skip(start as int));
    output
}

/// Keeps only the file name of a path.
pub fn summarize_path(value: &str) -> (result: String)
    ensures
        result@ == path_summary(value@),
{
    let chars = chars_of(value);
    let summary = summarize_path_chars(&chars);
    string_of(&summary)
}

proof fn no_separator_after_last(s: Seq<char>)
    ensures
        0 <= after_last_separator(s) <= s.len(),
        forall|i: int|
            after_last_separator(s) <= i < s.len() ==> !CharClass::Separator.has(#[trigger] s[i]),
    decreases s.len(),
{
    if s.len() > 0 && !CharClass::Separator.has(s.last()) {
        no_separator_after_last(s.drop_last());
        assert forall|i: int| after_last_separator(s) <= i < s.len() implies !CharClass::Separator.has(
            #[trigger] s[i],
        ) by {
            if i < s.len() - 1 {
                assert(s.drop_last()[i] == s[i]);
            }
        }
    }
}

proof fn trimmed_end_is_clean(s: Seq<char>, class: CharClass)
    ensures
        trim_end_by(s, class).len() > 0 ==> !class.has(trim_end_by(s, class).last()),
    decreases s.len(),
{
    if s.len() > 0 && class.has(s.last()) {
        trimmed_end_is_clean(s.drop_last(), class);
    }
}

/// A summarized path is a marker alone, or the marker and one name that is not empty and holds no
/// separator: no directory of the path is shown.
pub proof fn path_summary_shows_only_a_name(s: Seq<char>)
    ensures
        path_summary(s) == "<local>"@ || exists|name: Seq<char>|
            name.len() > 0 && path_summary(s) == "<local>/"@ + name && (forall|i: int|
                0 <= i < name.len() ==> !CharClass::Separator.has(#[trigger] name[i])),
{
    let t = trim_end_by(bare_path(s), CharClass::Separator);
    if t.len() > 0 {
        trimmed_end_is_clean(bare_path(s), CharClass::Separator);
        no_separator_after_last(t);
        let name = t.skip(after_last_separator(t));
        assert(path_summary(s) == "<local>/"@ + name);
        assert forall|i: int| 0 <= i < name.len() implies !CharClass::Separator.has(
            #[trigger] name[i],
        ) by {
            assert(name[i] == t[after_last_separator(t) + i]);
        }
        if name.len() == 0 {
            assert(after_last_separator(t) == t.len());
            assert(CharClass::Separator.has(t.last()) || after_last_separator(t.drop_last()) == t.len());
            no_separator_after_last(t.drop_last());
        }
    }
}

/// What `url::Url` tells of a URL.
pub struct UrlParts {
    pub scheme: String,
    pub path: String,
    pub origin: String,
    pub keys: Vec<String>,
}

/// The scheme that `Url::parse` finds, where it accepts the text.
pub uninterp spec fn url_scheme(value: Seq<char>) -> Option<Seq<char>>;

/// What `Url::parse` says of a text that it does not accept.
pub uninterp spec fn url_error(value: Seq<char>) -> Seq<char>;

/// `Url::path` of the parsed text.
pub uninterp spec fn url_path(value: Seq<char>) -> Seq<char>;

/// `Url::origin` of the parsed text, serialized in ASCII.
pub uninterp spec fn url_origin(value: Seq<char>) -> Seq<char>;

/// The keys of `Url::query_pairs` of the parsed text, in order.
pub uninterp spec fn url_query_keys(value: Seq<char>) -> Seq<Seq<char>>;

/// No character of the text is one of the given ones.
pub open spec fn has_none_of(s: Seq<char>, others: Seq<char>) -> bool {
    forall|i: int| 0 <= i < s.len() ==> !others.contains(#[trigger] s[i])
}

/// A URL of the web with one key in its query.
pub open spec fn web_url(host: Seq<char>, path: Seq<char>, key: Seq<char>, value: Seq<char>) -> Seq<
    char,
> {
    "https://"@ + host + path + "?"@ + key + "="@ + value
}

/// The parts of such a URL hold no character that would end them early, and no white space.
pub open spec fn is_web_url(
    host: Seq<char>,
    path: Seq<char>,
    key: Seq<char>,
    value: Seq<char>,
) -> bool {
    &&& host.len() > 0 && has_none_of(host, "/?#\\"@)
    &&& path.len() > 0 && path[0] == '/' && has_none_of(path, "?#"@)
    &&& has_none_of(key, "&=#"@)
    &&& has_none_of(value, "&#"@)
    &&& forall|i: int|
        0 <= i < web_url(host, path, key, value).len() ==> !is_white(
            #[trigger] web_url(host, path, key, value)[i],
        )
}

/// The path and the query's key of such a URL are those of the same URL with any other host and no
/// value.
pub open spec fn tells_no_server(text: Seq<char>, parts: UrlParts) -> bool {
    forall|host: Seq<char>, path: Seq<char>, key: Seq<char>, value: Seq<char>|
        text == #[trigger] web_url(host, path, key, value) && is_web_url(host, path, key, value)
            ==> parts.scheme@ == "https"@ && parts.path@ == url_path(
            web_url("h"@, path, key, ""@),
        ) && texts(parts.keys@) == url_query_keys(web_url("h"@, path, key, ""@))
}

/// `url::Url::parse`, with the parts of the URL that summaries need: its scheme, its path, its
/// origin and the keys of its query. Each part is a function of the text alone. A URL whose
/// origin is opaque has the origin `null`. A text that is not a URL gives the error's message. The
/// path of a URL of the web begins where its host ends, and does not depend on it; nor do the keys
/// of its query depend on their values.
#[verifier::external_body]
pub(crate) fn parse_url(value: &str) -> (result: Result<UrlParts, String>)
    ensures
        match result {
            Ok(parts) => url_scheme(value@) == Some(parts.scheme@) && url_path(value@)
                == parts.path@ && url_origin(value@) == parts.origin@ && url_query_keys(value@)
                == texts(parts.keys@),
            Err(message) => url_scheme(value@) is None && message@ == url_error(value@),
        },
        result matches Ok(parts) ==> tells_no_server(value@, parts),
{
    let url = url::Url::parse(value).map_err(|error| error.to_string())?;
    Ok(
        UrlParts {
            scheme: url.scheme().to_owned(),
            path: url.path().to_owned(),
            origin: url.origin().ascii_serialization(),
            keys: url.query_pairs().map(|pair| pair.0.into_owned()).collect(),
        },
    )
}

/// The note on the keys of a query, without their values.
pub open spec fn keys_note(keys: Seq<Seq<char>>) -> Seq<char> {
    if keys.len() == 0 {
        seq![]
    } else {
        "?keys="@ + joined_by(keys, ","@)
    }
}

pub open spec fn parts_summary(scheme: Seq<char>, path: Seq<char>, keys: Seq<Seq<char>>) -> Seq<
    char,
> {
    if scheme == "file"@ {
        path_summary(path)
    } else {
        scheme + "://<server>"@ + path + keys_note(keys)
    }
}

/// A URL that was put in quotes or padded.
pub open spec fn bare_url(s: Seq<char>) -> Seq<char> {
    trim_by(trimmed(s), CharClass::Only('"'))
}

pub open spec fn url_summary(s: Seq<char>) -> Seq<char> {
    let t = bare_url(s);
    match url_scheme(t) {
        Some(scheme) => parts_summary(scheme, url_path(t), url_query_keys(t)),
        None => "<url>"@,
    }
}

/// The summary of a public URL: its origin stays. One whose origin is opaque is summarized as a
/// private one.
pub open spec fn public_url_summary(s: Seq<char>) -> Seq<char> {
    let t = bare_url(s);
    if url_scheme(t) is None {
        "<url>"@
    } else if url_origin(t) == "null"@ {
        url_summary(t)
    } else {
        url_origin(t) + url_path(t) + keys_note(url_query_keys(t))
    }
}

fn push_keys(output: &mut String, keys: &Vec<String>)
    ensures
        final(output)@ == old(output)@ + keys_note(texts(keys@)),
{
    let ghost before = output@;
    if keys.len() > 0 {
        output.append("?keys=");
        let list = join_texts(keys, ",");
        output.append(list.as_str());
    }
    assert(output@ =~= before + keys_note(texts(keys@)));
}

/// The summary of a private URL: no server, and the keys of its query without values.
pub fn summarize_url_parts(parts: &UrlParts) -> (result: String)
    ensures
        result@ == parts_summary(parts.scheme@, parts.path@, texts(parts.keys@)),
{
    if same(parts.scheme.as_str(), "file") {
        return summarize_path(parts.path.as_str());
    }
    let mut output = parts.scheme.clone();
    output.append("://<server>");
    output.append(parts.path.as_str());
    push_keys(&mut output, &parts.keys);
    output
}

fn unquoted_url(value: &str) -> (result: String)
    ensures
        result@ == bare_url(value@),
{
    let chars = chars_of(value);
    let inner = trim_chars(&chars, CharClass::White);
    let bare = trim_chars(&inner, CharClass::Only('"'));
    string_of(&bare)
}

/// What is known of the names of a text once it was parsed: where it is a URL of the web, its path
/// and its query's key do not depend on its host and its value.
pub open spec fn is_known_url(text: Seq<char>) -> bool {
    forall|host: Seq<char>, path: Seq<char>, key: Seq<char>, value: Seq<char>|
        text == #[trigger] web_url(host, path, key, value) && is_web_url(host, path, key, value)
            && url_scheme(text) is Some ==> url_scheme(text) == Some("https"@) && url_path(text)
            == url_path(web_url("h"@, path, key, ""@)) && url_query_keys(text) == url_query_keys(
            web_url("h"@, path, key, ""@),
        )
}

pub fn summarize_url(value: &str) -> (result: String)
    ensures
        result@ == url_summary(value@),
        is_known_url(bare_url(value@)),
{
    let bare = unquoted_url(value);
    match parse_url(bare.as_str()) {
        Ok(parts) => summarize_url_parts(&parts),
        Err(_) => "<url>".to_owned(),
    }
}

pub fn summarize_public_url(value: &str) -> (result: String)
    ensures
        result@ == public_url_summary(value@),
{
    let bare = unquoted_url(value);
    match parse_url(bare.as_str()) {
        Ok(parts) => {
            if same(parts.origin.as_str(), "null") {
                return summarize_url(bare.as_str());
            }
            let mut output = joined(parts.origin.as_str(), parts.path.as_str());
            push_keys(&mut output, &parts.keys);
            output
        },
        Err(_) => "<url>".to_owned(),
    }
}

/// The lesser of two positions, where there is one.
pub open spec fn nearer(a: Option<int>, b: Option<int>) -> Option<int> {
    match (a, b) {
        (Some(x), Some(y)) => if y < x {
            b
        } else {
            a
        },
        (None, _) => b,
        _ => a,
    }
}

/// The first place from `from` on at which a URL starts.
pub open spec fn url_start(s: Seq<char>, from: int) -> Option<int> {
    nearer(
        nearer(found(s, from, "https://"@), found(s, from, "http://"@)),
        found(s, from, "file://"@),
    )
}

/// A URL starts at a character that does not end one.
pub proof fn url_start_is_ahead(s: Seq<char>, from: int)
    requires
        0 <= from,
    ensures
        url_start(s, from) matches Some(at) ==> from <= at < s.len() && !CharClass::UrlEnd.has(s[at]),
{
    found_is_least(s, from, "https://"@);
    found_is_least(s, from, "http://"@);
    found_is_least(s, from, "file://"@);
    reveal_strlit("https://");
    reveal_strlit("http://");
    reveal_strlit("file://");
    if let Some(at) = url_start(s, from) {
        if matches_at(s, at, "https://"@) {
            assert(s.subrange(at, at + 8)[0] == s[at]);
        } else if matches_at(s, at, "http://"@) {
            assert(s.subrange(at, at + 7)[0] == s[at]);
        } else {
            assert(s.subrange(at, at + 7)[0] == s[at]);
        }
    }
}

/// The text from `from` on with each URL replaced by its summary.
pub open spec fn urls_masked(s: Seq<char>, from: int) -> Seq<char>
    decreases s.len() - from,
    when 0 <= from
{
    match url_start(s, from) {
        Some(at) => {
            let end = first(s, at, CharClass::UrlEnd, true);
            proof {
                url_start_is_ahead(s, from);
                first_is_least(s, at, CharClass::UrlEnd, true);
            }
            s.subrange(from, at) + url_summary(s.subrange(at, end)) + urls_masked(s, end)
        },
        None => s.skip(from),
    }
}

/// Every URL of the text from `from` on was parsed.
pub open spec fn urls_known(s: Seq<char>, from: int) -> bool
    decreases s.len() - from,
    when 0 <= from
{
    match url_start(s, from) {
        Some(at) => {
            let end = first(s, at, CharClass::UrlEnd, true);
            proof {
                url_start_is_ahead(s, from);
                first_is_least(s, at, CharClass::UrlEnd, true);
            }
            is_known_url(bare_url(s.subrange(at, end))) && urls_known(s, end)
        },
        None => true,
    }
}

/// Where the next URL of the text starts.
pub fn next_url(chars: &[char], from: usize) -> (result: Option<usize>)
    requires
        from <= chars@.len(),
    ensures
        match result {
            Some(at) => url_start(chars@, from as int) == Some(at as int),
            None => url_start(chars@, from as int) is None,
        },
{
    let secure = find(chars, from, &chars_of("https://"));
    let plain = find(chars, from, &chars_of("http://"));
    let file = find(chars, from, &chars_of("file://"));
    let web: Option<usize> = match (secure, plain) {
        (Some(x), Some(y)) => if y < x {
            Some(y)
        } else {
            Some(x)
        },
        (None, other) => other,
        (other, None) => other,
    };
    match (web, file) {
        (Some(x), Some(y)) => if y < x {
            Some(y)
        } else {
            Some(x)
        },
        (None, other) => other,
        (other, None) => other,
    }
}

fn mask_urls(chars: &[char]) -> (result: Vec<char>)
    ensures
        result@ == urls_masked(chars@, 0),
        urls_known(chars@, 0),
{
    let mut output: Vec<char> = Vec::new();
    let mut from: usize = 0;
    let length: usize = chars.len();
    assert(output@ + urls_masked(chars@, 0) =~= urls_masked(chars@, 0));
    loop
        invariant_except_break
            output@ + urls_masked(chars@, from as int) == urls_masked(chars@, 0),
        invariant
            from <= length == chars@.len(),
            urls_known(chars@, from as int) ==> urls_known(chars@, 0),
        ensures
            output@ + chars@.skip(from as int) == urls_masked(chars@, 0),
            urls_known(chars@, 0),
        decreases length - from,
    {
        let at: usize = match next_url(chars, from) {
            Some(at) => at,
            None => {
                break;
            },
        };
        proof {
            url_start_is_ahead(chars@, from as int);
            first_is_least(chars@, at as int, CharClass::UrlEnd, true);
        }
        let end: usize = position(chars, at, CharClass::UrlEnd, true);
        let ghost before = output@;
        push_part(&mut output, chars, from, at);
        let raw = part(chars, at, end);
        let raw_text = string_of(&raw);
        let summary = chars_of(summarize_url(raw_text.as_str()).as_str());
        push_chars(&mut output, &summary);
        proof {
            assert(output@ + urls_masked(chars@, end as int) =~= before + urls_masked(
                chars@,
                from as int,
            ));
        }
        from = end;
    }
    push_part(&mut output, chars, from, length);
    assert(chars@.subrange(from as int, length as int) =~= chars@.skip(from as int));
    output
}

/// The value that stands behind a `=` or `:` at `sep`, within quotes or up to a delimiter.
pub open spec fn secret_value(s: Seq<char>, sep: int) -> (int, int) {
    let start = first(s, sep + 1, CharClass::White, false);
    if start < s.len() && (s[start] == '"' || s[start] == '\'') {
        (start + 1, first(s, start + 1, CharClass::Only(s[start]), true))
    } else {
        (start, first(s, start, CharClass::SecretEnd, true))
    }
}

/// The range of the secret whose name ends at `after`, where the text there gives it a value.
pub open spec fn secret_after(s: Seq<char>, after: int) -> Seq<(int, int)> {
    let sep = first(s, after, CharClass::White, false);
    if sep < s.len() && (s[sep] == '=' || s[sep] == ':') && secret_value(s, sep).0 < secret_value(
        s,
        sep,
    ).1 {
        seq![secret_value(s, sep)]
    } else {
        seq![]
    }
}

/// The ranges of the values given to `name` from `from` on. A name with nothing but white space
/// behind it ends the search.
pub open spec fn secrets_named(s: Seq<char>, name: Seq<char>, from: int) -> Seq<(int, int)>
    decreases s.len() - from,
    when 0 <= from && name.len() > 0
{
    match found(lowered(s), from, name) {
        Some(at) => {
            proof {
                found_is_least(lowered(s), from, name);
            }
            let after = at + name.len();
            if first(s, after, CharClass::White, false) >= s.len() {
                seq![]
            } else {
                secret_after(s, after) + secrets_named(s, name, after)
            }
        },
        None => seq![],
    }
}

/// The ranges of all values that must not be shown.
pub open spec fn secret_ranges(s: Seq<char>) -> Seq<(int, int)> {
    secrets_named(s, "authorization"@, 0) + secrets_named(s, "password"@, 0) + secrets_named(
        s,
        "api_key"@,
        0,
    ) + secrets_named(s, "apikey"@, 0) + secrets_named(s, "cookie"@, 0) + secrets_named(
        s,
        "secret"@,
        0,
    ) + secrets_named(s, "token"@, 0)
}

pub open spec fn ranges_of(list: Seq<(usize, usize)>) -> Seq<(int, int)> {
    list.map_values(|range: (usize, usize)| (range.0 as int, range.1 as int))
}

/// Each range lies within a text of the given length.
pub open spec fn ranges_within(list: Seq<(int, int)>, length: int) -> bool {
    forall|i: int| 0 <= i < list.len() ==> 0 <= (#[trigger] list[i]).0 <= list[i].1 <= length
}

fn push_secret(chars: &[char], after: usize, sep: usize, ranges: &mut Vec<(usize, usize)>)
    requires
        after <= sep < chars@.len(),
        sep == first(chars@, after as int, CharClass::White, false),
        ranges_within(ranges_of(old(ranges)@), chars@.len() as int),
    ensures
        ranges_of(final(ranges)@) == ranges_of(old(ranges)@) + secret_after(chars@, after as int),
        ranges_within(ranges_of(final(ranges)@), chars@.len() as int),
{
    let ghost before = ranges@;
    if chars[sep] == '=' || chars[sep] == ':' {
        let start: usize = position(chars, sep + 1, CharClass::White, false);
        let (from, to): (usize, usize) = if start < chars.len() && (chars[start] == '"' || chars[start]
            == '\'') {
            (start + 1, position(chars, start + 1, CharClass::Only(chars[start]), true))
        } else {
            (start, position(chars, start, CharClass::SecretEnd, true))
        };
        if to > from {
            ranges.push((from, to));
            assert(ranges_of(ranges@) =~= ranges_of(before) + seq![(from as int, to as int)]);
            assert forall|i: int| 0 <= i < ranges@.len() implies 0 <= (#[trigger] ranges_of(
                ranges@,
            )[i]).0 <= ranges_of(ranges@)[i].1 <= chars@.len() by {
                if i < before.len() {
                    assert(ranges_of(before)[i] == ranges_of(ranges@)[i]);
                }
            }
        }
    }
    assert(ranges_of(ranges@) =~= ranges_of(before) + secret_after(chars@, after as int));
}

fn collect_secrets(chars: &[char], lower: &[char], name: &str, ranges: &mut Vec<(usize, usize)>)
    requires
        lower@ == lowered(chars@),
        name@.len() > 0,
        ranges_within(ranges_of(old(ranges)@), chars@.len() as int),
    ensures
        ranges_of(final(ranges)@) == ranges_of(old(ranges)@) + secrets_named(chars@, name@, 0),
        ranges_within(ranges_of(final(ranges)@), chars@.len() as int),
{
    let ghost before = ranges_of(ranges@);
    let pattern = chars_of(name);
    let length: usize = chars.len();
    let mut from: usize = 0;
    assert(ranges_of(ranges@) + secrets_named(chars@, name@, 0) =~= before + secrets_named(
        chars@,
        name@,
        0,
    ));
    loop
        invariant_except_break
            ranges_of(ranges@) + secrets_named(chars@, name@, from as int) == before
                + secrets_named(chars@, name@, 0),
        invariant
            from <= length == chars@.len(),
            lower@ == lowered(chars@),
            pattern@ == name@,
            name@.len() > 0,
            ranges_within(ranges_of(ranges@), chars@.len() as int),
        ensures
            ranges_of(ranges@) == before + secrets_named(chars@, name@, 0),
        decreases length - from,
    {
        let at: usize = match find(lower, from, &pattern) {
            Some(at) => at,
            None => {
                assert(ranges_of(ranges@) + secrets_named(chars@, name@, from as int)
                    =~= ranges_of(ranges@));
                break;
            },
        };
        let after: usize = at + pattern.len();
        let sep: usize = position(chars, after, CharClass::White, false);
        if sep >= length {
            assert(ranges_of(ranges@) + secrets_named(chars@, name@, from as int) =~= ranges_of(
                ranges@,
            ));
            break;
        }
        let ghost held = ranges_of(ranges@);
        push_secret(chars, after, sep, ranges);
        proof {
            assert(secrets_named(chars@, name@, from as int) == secret_after(chars@, after as int)
                + secrets_named(chars@, name@, after as int));
            assert(ranges_of(ranges@) + secrets_named(chars@, name@, after as int) =~= held
                + secrets_named(chars@, name@, from as int));
        }
        from = after;
    }
}

/// `a` does not stand behind `b`: by its start, then by its end.
pub open spec fn precedes(a: (int, int), b: (int, int)) -> bool {
    a.0 < b.0 || (a.0 == b.0 && a.1 <= b.1)
}

/// No range stands behind a later one.
pub open spec fn is_ordered(list: Seq<(int, int)>) -> bool {
    forall|i: int, j: int| 0 <= i < j < list.len() ==> #[trigger] precedes(list[i], list[j])
}

/// An ordered list with one more range, at its place.
pub open spec fn placed(list: Seq<(int, int)>, range: (int, int)) -> Seq<(int, int)>
    decreases list.len(),
{
    if list.len() == 0 || precedes(list.last(), range) {
        list.push(range)
    } else {
        placed(list.drop_last(), range).push(list.last())
    }
}

/// The ranges of a list in order.
pub open spec fn ordered(list: Seq<(int, int)>) -> Seq<(int, int)>
    decreases list.len(),
{
    if list.len() == 0 {
        seq![]
    } else {
        placed(ordered(list.drop_last()), list.last())
    }
}

proof fn placed_holds(list: Seq<(int, int)>, range: (int, int))
    ensures
        placed(list, range).len() == list.len() + 1,
        forall|i: int|
            0 <= i < list.len() + 1 ==> #[trigger] placed(list, range)[i] == range || list.contains(
                placed(list, range)[i],
            ),
    decreases list.len(),
{
    let result = placed(list, range);
    if list.len() > 0 && !precedes(list.last(), range) {
        let init = list.drop_last();
        placed_holds(init, range);
        let inner = placed(init, range);
        assert forall|i: int| 0 <= i < result.len() implies #[trigger] result[i] == range
            || list.contains(result[i]) by {
            if i < inner.len() {
                assert(result[i] == inner[i]);
                if inner[i] != range {
                    let k = choose|k: int| 0 <= k < init.len() && init[k] == inner[i];
                    assert(list[k] == result[i]);
                }
            } else {
                assert(list[list.len() - 1] == result[i]);
            }
        }
    } else {
        assert forall|i: int| 0 <= i < result.len() implies #[trigger] result[i] == range
            || list.contains(result[i]) by {
            if i < list.len() {
                assert(result[i] == list[i]);
            }
        }
    }
}

proof fn placed_is_ordered(list: Seq<(int, int)>, range: (int, int))
    requires
        is_ordered(list),
    ensures
        is_ordered(placed(list, range)),
        placed(list, range).len() == list.len() + 1,
        placed(list, range).to_multiset() == list.to_multiset().insert(range),
    decreases list.len(),
{
    broadcast use group_to_multiset_ensures;

    let result = placed(list, range);
    if list.len() == 0 || precedes(list.last(), range) {
        assert forall|i: int, j: int| 0 <= i < j < result.len() implies #[trigger] precedes(
            result[i],
            result[j],
        ) by {
            if j == list.len() && i < list.len() - 1 {
                assert(precedes(list[i], list[list.len() - 1]));
            }
        }
    } else {
        let init = list.drop_last();
        placed_is_ordered(init, range);
        placed_holds(init, range);
        let inner = placed(init, range);
        assert forall|i: int| 0 <= i < inner.len() implies precedes(
            #[trigger] inner[i],
            list.last(),
        ) by {
            if inner[i] != range {
                let k = choose|k: int| 0 <= k < init.len() && init[k] == inner[i];
                assert(precedes(list[k], list[list.len() - 1]));
            }
        }
        assert(list =~= init.push(list.last()));
        assert(result.to_multiset() =~= list.to_multiset().insert(range));
    }
}

/// Ordering a list changes only the order of its ranges.
pub proof fn ordering_keeps_the_ranges(list: Seq<(int, int)>)
    ensures
        is_ordered(ordered(list)),
        ordered(list).len() == list.len(),
        ordered(list).to_multiset() == list.to_multiset(),
    decreases list.len(),
{
    broadcast use group_to_multiset_ensures;

    if list.len() > 0 {
        ordering_keeps_the_ranges(list.drop_last());
        placed_is_ordered(ordered(list.drop_last()), list.last());
        assert(list =~= list.drop_last().push(list.last()));
    } else {
        assert(list =~= seq![]);
    }
}

proof fn ordered_within(list: Seq<(int, int)>, length: int)
    requires
        ranges_within(list, length),
    ensures
        ranges_within(ordered(list), length),
{
    broadcast use group_to_multiset_ensures;

    ordering_keeps_the_ranges(list);
    let result = ordered(list);
    assert forall|i: int| 0 <= i < result.len() implies 0 <= (#[trigger] result[i]).0 <= result[i].1
        <= length by {
        assert(result.contains(result[i]));
        assert(list.to_multiset().count(result[i]) > 0);
        let k = choose|k: int| 0 <= k < list.len() && list[k] == result[i];
        assert(0 <= list[k].0 <= list[k].1 <= length);
    }
}

fn place_range(list: &mut Vec<(usize, usize)>, range: (usize, usize))
    ensures
        ranges_of(final(list)@) == placed(
            ranges_of(old(list)@),
            (range.0 as int, range.1 as int),
        ),
{
    let ghost all = ranges_of(list@);
    let ghost target = (range.0 as int, range.1 as int);
    let mut at: usize = list.len();
    assert(all.take(at as int) =~= all);
    assert(placed(all, target) =~= placed(all.take(at as int), target) + all.skip(at as int));
    while at > 0 && (range.0 < list[at - 1].0 || (range.0 == list[at - 1].0 && range.1 < list[at
        - 1].1))
        invariant
            at <= list@.len(),
            all == ranges_of(list@),
            target == (range.0 as int, range.1 as int),
            placed(all, target) == placed(all.take(at as int), target) + all.skip(at as int),
        decreases at,
    {
        proof {
            let start = all.take(at as int);
            assert(start.last() == all[at - 1]);
            assert(start.drop_last() =~= all.take(at - 1));
            assert(placed(start, target) == placed(all.take(at - 1), target).push(all[at - 1]));
            assert(placed(all.take(at - 1), target) + all.skip(at - 1) =~= placed(start, target)
                + all.skip(at as int));
        }
        at -= 1;
    }
    proof {
        let start = all.take(at as int);
        if at > 0 {
            assert(start.last() == all[at - 1]);
        }
        assert(placed(start, target) == start.push(target));
    }
    let ghost before = list@;
    list.insert(at, range);
    assert(ranges_of(list@) =~= all.take(at as int).push(target) + all.skip(at as int));
}

fn order_ranges(list: &Vec<(usize, usize)>) -> (result: Vec<(usize, usize)>)
    ensures
        ranges_of(result@) == ordered(ranges_of(list@)),
{
    let mut result: Vec<(usize, usize)> = Vec::new();
    let mut i: usize = 0;
    assert(ranges_of(result@) =~= ordered(ranges_of(list@).take(0)));
    while i < list.len()
        invariant
            i <= list@.len(),
            ranges_of(result@) == ordered(ranges_of(list@).take(i as int)),
        decreases list@.len() - i,
    {
        proof {
            let t = ranges_of(list@).take(i + 1);
            assert(t.drop_last() =~= ranges_of(list@).take(i as int));
            assert(t.last() == ranges_of(list@)[i as int]);
        }
        place_range(&mut result, list[i]);
        i += 1;
    }
    assert(ranges_of(list@).take(i as int) =~= ranges_of(list@));
    result
}

/// The text from `cursor` on with each of the ranges, which are in order, replaced by the marker. A
/// range that starts inside one already replaced is passed over.
pub open spec fn ranges_replaced(
    s: Seq<char>,
    list: Seq<(int, int)>,
    cursor: int,
    marker: Seq<char>,
) -> Seq<char>
    decreases list.len(),
{
    if list.len() == 0 {
        s.skip(cursor)
    } else if list[0].0 < cursor {
        ranges_replaced(s, list.drop_first(), cursor, marker)
    } else {
        s.subrange(cursor, list[0].0) + marker + ranges_replaced(
            s,
            list.drop_first(),
            list[0].1,
            marker,
        )
    }
}

fn replace_chars(chars: &[char], ranges: &Vec<(usize, usize)>, marker: &[char]) -> (result: Vec<
    char,
>)
    requires
        ranges_within(ranges_of(ranges@), chars@.len() as int),
    ensures
        result@ == ranges_replaced(chars@, ordered(ranges_of(ranges@)), 0, marker@),
{
    proof {
        ordered_within(ranges_of(ranges@), chars@.len() as int);
    }
    let sorted = order_ranges(ranges);
    let ghost list = ranges_of(sorted@);
    let mut output: Vec<char> = Vec::new();
    let mut cursor: usize = 0;
    let mut i: usize = 0;
    let ghost whole = ranges_replaced(chars@, list, 0, marker@);
    assert(list.skip(0) =~= list);
    assert(output@ + whole =~= whole);
    while i < sorted.len()
        invariant
            i <= sorted@.len(),
            cursor <= chars@.len(),
            list == ranges_of(sorted@),
            ranges_within(list, chars@.len() as int),
            output@ + ranges_replaced(chars@, list.skip(i as int), cursor as int, marker@)
                == whole,
        decreases sorted@.len() - i,
    {
        let range: (usize, usize) = sorted[i];
        let ghost held = output@;
        proof {
            let rest = list.skip(i as int);
            assert(rest[0] == list[i as int]);
            assert(rest.drop_first() =~= list.skip(i + 1));
        }
        if range.0 >= cursor {
            let ghost rest = ranges_replaced(chars@, list.skip(i + 1), range.1 as int, marker@);
            let ghost from = cursor as int;
            push_part(&mut output, chars, cursor, range.0);
            push_chars(&mut output, marker);
            cursor = range.1;
            assert(output@ + rest =~= held + (chars@.subrange(from, range.0 as int) + marker@
                + rest));
        }
        i += 1;
    }
    push_part(&mut output, chars, cursor, chars.len());
    assert(chars@.subrange(cursor as int, chars@.len() as int) =~= chars@.skip(cursor as int));
    output
}

/// Replaces the ranges of characters, in the order of their starts, by the replacement.
pub fn replace_ranges(value: &str, ranges: Vec<(usize, usize)>, replacement: &str) -> (result:
    String)
    requires
        ranges_within(ranges_of(ranges@), value@.len() as int),
    ensures
        result@ == ranges_replaced(value@, ordered(ranges_of(ranges@)), 0, replacement@),
{
    let chars = chars_of(value);
    let marker = chars_of(replacement);
    let output = replace_chars(&chars, &ranges, &marker);
    string_of(&output)
}

/// The order in which ranges are listed does not matter.
pub proof fn the_order_of_ranges_does_not_matter(
    s: Seq<char>,
    a: Seq<(int, int)>,
    b: Seq<(int, int)>,
    marker: Seq<char>,
)
    requires
        a.to_multiset() == b.to_multiset(),
    ensures
        ordered(a) == ordered(b),
        ranges_replaced(s, ordered(a), 0, marker) == ranges_replaced(s, ordered(b), 0, marker),
{
    ordering_keeps_the_ranges(a);
    ordering_keeps_the_ranges(b);
    let leq = |x: (int, int), y: (int, int)| precedes(x, y);
    assert(sorted_by(ordered(a), leq));
    assert(sorted_by(ordered(b), leq));
    lemma_sorted_unique(ordered(a), ordered(b), leq);
}

/// No two ranges have a character in common.
pub open spec fn are_disjoint(list: Seq<(int, int)>) -> bool {
    forall|i: int, j: int|
        0 <= i < j < list.len() ==> (#[trigger] list[i]).1 <= (#[trigger] list[j]).0 || list[j].1
            <= list[i].0
}

/// The text from `cursor` on with every one of the ranges replaced.
pub open spec fn all_replaced(
    s: Seq<char>,
    list: Seq<(int, int)>,
    cursor: int,
    marker: Seq<char>,
) -> Seq<char>
    decreases list.len(),
{
    if list.len() == 0 {
        s.skip(cursor)
    } else {
        s.subrange(cursor, list[0].0) + marker + all_replaced(
            s,
            list.drop_first(),
            list[0].1,
            marker,
        )
    }
}

proof fn ordered_ranges_are_all_replaced(
    s: Seq<char>,
    list: Seq<(int, int)>,
    cursor: int,
    marker: Seq<char>,
)
    requires
        is_ordered(list),
        are_disjoint(list),
        ranges_within(list, s.len() as int),
        list.len() > 0 ==> cursor <= list[0].0,
    ensures
        ranges_replaced(s, list, cursor, marker) == all_replaced(s, list, cursor, marker),
    decreases list.len(),
{
    if list.len() > 0 {
        let rest = list.drop_first();
        assert forall|i: int, j: int| 0 <= i < j < rest.len() implies #[trigger] precedes(
            rest[i],
            rest[j],
        ) by {
            assert(precedes(list[i + 1], list[j + 1]));
        }
        assert forall|i: int, j: int| 0 <= i < j < rest.len() implies (#[trigger] rest[i]).1 <= (
        #[trigger] rest[j]).0 || rest[j].1 <= rest[i].0 by {
            assert(rest[i] == list[i + 1] && rest[j] == list[j + 1]);
        }
        assert forall|i: int| 0 <= i < rest.len() implies 0 <= (#[trigger] rest[i]).0 <= rest[i].1
            <= s.len() by {
            assert(rest[i] == list[i + 1]);
        }
        if rest.len() > 0 {
            assert(precedes(list[0], list[1]));
            assert(rest[0] == list[1]);
        }
        ordered_ranges_are_all_replaced(s, rest, list[0].1, marker);
    }
}

/// Ranges without a common character are all replaced, each by one copy of the marker, and all text
/// outside them stays, in whatever order they are listed.
pub proof fn disjoint_ranges_are_all_replaced(
    s: Seq<char>,
    list: Seq<(int, int)>,
    marker: Seq<char>,
)
    requires
        are_disjoint(list),
        ranges_within(list, s.len() as int),
    ensures
        ranges_replaced(s, ordered(list), 0, marker) == all_replaced(s, ordered(list), 0, marker),
        ordered(list).to_multiset() == list.to_multiset(),
        is_ordered(ordered(list)),
{
    ordering_keeps_the_ranges(list);
    ordered_within(list, s.len() as int);
    ordered_stays_disjoint(list);
    ordered_ranges_are_all_replaced(s, ordered(list), 0, marker);
}

proof fn placed_stays_disjoint(list: Seq<(int, int)>, range: (int, int))
    requires
        are_disjoint(list.push(range)),
    ensures
        are_disjoint(placed(list, range)),
    decreases list.len(),
{
    if list.len() > 0 && !precedes(list.last(), range) {
        let init = list.drop_last();
        let all = list.push(range);
        let part = init.push(range);
        assert forall|i: int, j: int| 0 <= i < j < part.len() implies (#[trigger] part[i]).1 <= (
        #[trigger] part[j]).0 || part[j].1 <= part[i].0 by {
            let k = if j == init.len() {
                list.len() as int
            } else {
                j
            };
            assert(part[i] == all[i] && part[j] == all[k]);
        }
        placed_stays_disjoint(init, range);
        let inner = placed(init, range);
        placed_holds(init, range);
        let result = placed(list, range);
        assert forall|i: int, j: int| 0 <= i < j < result.len() implies (#[trigger] result[i]).1
            <= (#[trigger] result[j]).0 || result[j].1 <= result[i].0 by {
            if j == inner.len() {
                assert(result[i] == inner[i]);
                assert(result[j] == all[list.len() - 1]);
                if inner[i] == range {
                    assert(all[list.len() as int] == range);
                } else {
                    let k = choose|k: int| 0 <= k < init.len() && init[k] == inner[i];
                    assert(all[k] == inner[i]);
                }
            } else {
                assert(result[i] == inner[i] && result[j] == inner[j]);
            }
        }
    }
}

proof fn ordered_stays_disjoint(list: Seq<(int, int)>)
    requires
        are_disjoint(list),
    ensures
        are_disjoint(ordered(list)),
    decreases list.len(),
{
    if list.len() > 0 {
        let init = list.drop_last();
        assert forall|i: int, j: int| 0 <= i < j < init.len() implies (#[trigger] init[i]).1 <= (
        #[trigger] init[j]).0 || init[j].1 <= init[i].0 by {
            assert(init[i] == list[i] && init[j] == list[j]);
        }
        ordered_stays_disjoint(init);
        ordered_holds(init);
        let before = ordered(init);
        let all = before.push(list.last());
        assert forall|i: int, j: int| 0 <= i < j < all.len() implies (#[trigger] all[i]).1 <= (
        #[trigger] all[j]).0 || all[j].1 <= all[i].0 by {
            if j == before.len() {
                let k = choose|k: int| 0 <= k < init.len() && init[k] == before[i];
                assert(list[k] == all[i] && list[list.len() - 1] == all[j]);
            } else {
                assert(all[i] == before[i] && all[j] == before[j]);
            }
        }
        placed_stays_disjoint(before, list.last());
    }
}

proof fn ordered_holds(list: Seq<(int, int)>)
    ensures
        forall|i: int| 0 <= i < ordered(list).len() ==> list.contains(#[trigger] ordered(list)[i]),
    decreases list.len(),
{
    if list.len() > 0 {
        let init = list.drop_last();
        ordered_holds(init);
        placed_holds(ordered(init), list.last());
        assert forall|i: int| 0 <= i < ordered(list).len() implies list.contains(
            #[trigger] ordered(list)[i],
        ) by {
            let range = ordered(list)[i];
            if range == list.last() {
                assert(list[list.len() - 1] == range);
            } else {
                let m = choose|m: int| 0 <= m < ordered(init).len() && ordered(init)[m] == range;
                let k = choose|k: int| 0 <= k < init.len() && init[k] == ordered(init)[m];
                assert(list[k] == range);
            }
        }
    }
}

/// Position `i` is replaced when the ranges, which are in order, are taken from `cursor` on.
pub open spec fn covered(list: Seq<(int, int)>, cursor: int, i: int) -> bool
    decreases list.len(),
{
    if list.len() == 0 {
        false
    } else if list[0].0 < cursor {
        covered(list.drop_first(), cursor, i)
    } else {
        list[0].0 <= i < list[0].1 || covered(list.drop_first(), list[0].1, i)
    }
}

/// Nothing of what stands inside a replaced range reaches the result: two texts that agree
/// everywhere else are replaced alike.
pub proof fn replaced_text_is_forgotten(
    a: Seq<char>,
    b: Seq<char>,
    list: Seq<(int, int)>,
    cursor: int,
    marker: Seq<char>,
)
    requires
        a.len() == b.len(),
        0 <= cursor <= a.len(),
        ranges_within(list, a.len() as int),
        forall|i: int|
            cursor <= i < a.len() && !covered(list, cursor, i) ==> #[trigger] a[i] == b[i],
    ensures
        ranges_replaced(a, list, cursor, marker) == ranges_replaced(b, list, cursor, marker),
    decreases list.len(),
{
    if list.len() == 0 {
        assert(a.skip(cursor) =~= b.skip(cursor));
    } else {
        let rest = list.drop_first();
        assert forall|i: int| 0 <= i < rest.len() implies 0 <= (#[trigger] rest[i]).0 <= rest[i].1
            <= a.len() by {
            assert(rest[i] == list[i + 1]);
        }
        assert(0 <= list[0].0 <= list[0].1 <= a.len());
        if list[0].0 < cursor {
            replaced_text_is_forgotten(a, b, rest, cursor, marker);
        } else {
            uncovered_before(rest, list[0].1, a.len() as int);
            assert forall|i: int| cursor <= i < list[0].0 implies #[trigger] a[i] == b[i] by {
                assert(!covered(rest, list[0].1, i));
            }
            assert(a.subrange(cursor, list[0].0) =~= b.subrange(cursor, list[0].0));
            replaced_text_is_forgotten(a, b, rest, list[0].1, marker);
        }
    }
}

proof fn uncovered_before(list: Seq<(int, int)>, cursor: int, length: int)
    requires
        ranges_within(list, length),
    ensures
        forall|i: int| i < cursor ==> !#[trigger] covered(list, cursor, i),
    decreases list.len(),
{
    if list.len() > 0 {
        let rest = list.drop_first();
        assert forall|i: int| 0 <= i < rest.len() implies 0 <= (#[trigger] rest[i]).0 <= rest[i].1
            <= length by {
            assert(rest[i] == list[i + 1]);
        }
        assert(list[0].0 <= list[0].1);
        let next = if list[0].0 < cursor {
            cursor
        } else {
            list[0].1
        };
        uncovered_before(rest, next, length);
        assert forall|i: int| i < cursor implies !#[trigger] covered(list, cursor, i) by {
            assert(!covered(rest, next, i));
        }
    }
}

/// The start of every range that is not empty is replaced, whichever ranges are passed over.
pub proof fn every_range_start_is_replaced(list: Seq<(int, int)>, cursor: int, k: int)
    requires
        is_ordered(list),
        0 <= k < list.len(),
        cursor <= list[k].0 < list[k].1,
    ensures
        covered(list, cursor, list[k].0),
    decreases list.len(),
{
    let rest = list.drop_first();
    assert forall|i: int, j: int| 0 <= i < j < rest.len() implies #[trigger] precedes(
        rest[i],
        rest[j],
    ) by {
        assert(precedes(list[i + 1], list[j + 1]));
    }
    if k > 0 {
        assert(precedes(list[0], list[k]));
        assert(rest[k - 1] == list[k]);
        if list[0].0 < cursor {
            every_range_start_is_replaced(rest, cursor, k - 1);
        } else if list[k].0 >= list[0].1 {
            every_range_start_is_replaced(rest, list[0].1, k - 1);
        }
    }
}

pub open spec fn secrets_redacted(s: Seq<char>) -> Seq<char> {
    ranges_replaced(s, ordered(secret_ranges(s)), 0, "<redacted>"@)
}

fn redact_secret_chars(chars: &[char]) -> (result: Vec<char>)
    ensures
        result@ == secrets_redacted(chars@),
{
    proof {
        reveal_strlit("authorization");
        reveal_strlit("password");
        reveal_strlit("api_key");
        reveal_strlit("apikey");
        reveal_strlit("cookie");
        reveal_strlit("secret");
        reveal_strlit("token");
    }
    let lower = lower_chars(chars);
    let mut ranges: Vec<(usize, usize)> = Vec::new();
    collect_secrets(chars, &lower, "authorization", &mut ranges);
    collect_secrets(chars, &lower, "password", &mut ranges);
    collect_secrets(chars, &lower, "api_key", &mut ranges);
    collect_secrets(chars, &lower, "apikey", &mut ranges);
    collect_secrets(chars, &lower, "cookie", &mut ranges);
    collect_secrets(chars, &lower, "secret", &mut ranges);
    collect_secrets(chars, &lower, "token", &mut ranges);
    assert(ranges_of(ranges@) =~= secret_ranges(chars@));
    let marker = chars_of("<redacted>");
    replace_chars(chars, &ranges, &marker)
}

/// Replaces the values that the text gives to names of credentials.
pub fn redact_embedded_secrets(value: &str) -> (result: String)
    ensures
        result@ == secrets_redacted(value@),
{
    let chars = chars_of(value);
    let output = redact_secret_chars(&chars);
    string_of(&output)
}

/// A home directory that can be looked for: absolute, or with a drive letter.
pub open spec fn is_home(home: Seq<char>) -> bool {
    home.len() > 0 && (home[0] == '/' || (home.len() > 1 && home[0] as u32 <= 0x7f && home[1]
        == ':'))
}

pub fn home_prefix(home: &str) -> (result: bool)
    ensures
        result == is_home(home@),
{
    let chars = chars_of(home);
    chars.len() > 0 && (chars[0] == '/' || (chars.len() > 1 && chars[0] as u32 <= 0x7f && chars[1]
        == ':'))
}

/// The class that ends the path which starts at `at`: the quote before it, or any delimiter.
pub open spec fn path_delimiter(s: Seq<char>, at: int) -> CharClass {
    if at > 0 && (s[at - 1] == '"' || s[at - 1] == '\'') {
        CharClass::Only(s[at - 1])
    } else {
        CharClass::PathEnd
    }
}

/// The ranges of the paths below `prefix`, from `from` on.
pub open spec fn paths_below(s: Seq<char>, prefix: Seq<char>, from: int) -> Seq<(int, int)>
    decreases s.len() - from,
    when 0 <= from && prefix.len() > 0
{
    match found(s, from, prefix) {
        Some(at) => {
            proof {
                found_is_least(s, from, prefix);
            }
            let end = first(s, at, path_delimiter(s, at), true);
            let here = if end > at {
                seq![(at, end)]
            } else {
                seq![]
            };
            here + paths_below(s, prefix, at + prefix.len())
        },
        None => seq![],
    }
}

/// The ranges of the paths below the first `count` of the given homes.
pub open spec fn home_paths(s: Seq<char>, homes: Seq<Seq<char>>, count: nat) -> Seq<(int, int)>
    decreases count,
{
    if count == 0 {
        seq![]
    } else {
        let earlier = home_paths(s, homes, (count - 1) as nat);
        if is_home(homes[count - 1]) {
            earlier + paths_below(s, homes[count - 1], 0)
        } else {
            earlier
        }
    }
}

pub open spec fn local_ranges(s: Seq<char>, homes: Seq<Seq<char>>) -> Seq<(int, int)> {
    paths_below(s, "/var/home/"@, 0) + paths_below(s, "/home/"@, 0) + paths_below(
        s,
        "/run/user/"@,
        0,
    ) + paths_below(s, "C:\\Users\\"@, 0) + home_paths(s, homes, homes.len())
}

fn collect_paths(chars: &[char], prefix: &str, ranges: &mut Vec<(usize, usize)>)
    requires
        prefix@.len() > 0,
        ranges_within(ranges_of(old(ranges)@), chars@.len() as int),
    ensures
        ranges_of(final(ranges)@) == ranges_of(old(ranges)@) + paths_below(chars@, prefix@, 0),
        ranges_within(ranges_of(final(ranges)@), chars@.len() as int),
{
    let ghost before = ranges_of(ranges@);
    let pattern = chars_of(prefix);
    let length: usize = chars.len();
    let mut from: usize = 0;
    loop
        invariant_except_break
            ranges_of(ranges@) + paths_below(chars@, prefix@, from as int) == before + paths_below(
                chars@,
                prefix@,
                0,
            ),
        invariant
            from <= length == chars@.len(),
            pattern@ == prefix@,
            prefix@.len() > 0,
            ranges_within(ranges_of(ranges@), chars@.len() as int),
        ensures
            ranges_of(ranges@) == before + paths_below(chars@, prefix@, 0),
        decreases length - from,
    {
        let at: usize = match find(chars, from, &pattern) {
            Some(at) => at,
            None => {
                assert(ranges_of(ranges@) + paths_below(chars@, prefix@, from as int)
                    =~= ranges_of(ranges@));
                break;
            },
        };
        let delimiter: CharClass = if at > 0 && (chars[at - 1] == '"' || chars[at - 1] == '\'') {
            CharClass::Only(chars[at - 1])
        } else {
            CharClass::PathEnd
        };
        let end: usize = position(chars, at, delimiter, true);
        let ghost held = ranges@;
        if end > at {
            ranges.push((at, end));
        }
        proof {
            let here = if end > at {
                seq![(at as int, end as int)]
            } else {
                seq![]
            };
            let after = at + prefix@.len();
            assert(ranges_of(ranges@) =~= ranges_of(held) + here);
            assert forall|i: int| 0 <= i < ranges@.len() implies 0 <= (#[trigger] ranges_of(
                ranges@,
            )[i]).0 <= ranges_of(ranges@)[i].1 <= chars@.len() by {
                if i < held.len() {
                    assert(ranges_of(held)[i] == ranges_of(ranges@)[i]);
                }
            }
            assert(paths_below(chars@, prefix@, from as int) == here + paths_below(
                chars@,
                prefix@,
                after as int,
            ));
            assert(ranges_of(ranges@) + paths_below(chars@, prefix@, after as int) =~= ranges_of(
                held,
            ) + paths_below(chars@, prefix@, from as int));
        }
        from = at + pattern.len();
    }
}

/// The text from `cursor` on with each of the ranges, which are in order, replaced by the summary of
/// the path in it. A range that starts inside one already replaced is passed over.
pub open spec fn paths_replaced(s: Seq<char>, list: Seq<(int, int)>, cursor: int) -> Seq<char>
    decreases list.len(),
{
    if list.len() == 0 {
        s.skip(cursor)
    } else if list[0].0 < cursor {
        paths_replaced(s, list.drop_first(), cursor)
    } else {
        s.subrange(cursor, list[0].0) + path_summary(s.subrange(list[0].0, list[0].1))
            + paths_replaced(s, list.drop_first(), list[0].1)
    }
}

pub open spec fn paths_redacted(s: Seq<char>, homes: Seq<Seq<char>>) -> Seq<char> {
    paths_replaced(s, ordered(local_ranges(s, homes)), 0)
}

fn collect_local_ranges(chars: &[char], homes: &[String]) -> (ranges: Vec<(usize, usize)>)
    ensures
        ranges_of(ranges@) == local_ranges(chars@, texts(homes@)),
        ranges_within(ranges_of(ranges@), chars@.len() as int),
{
    proof {
        reveal_strlit("/var/home/");
        reveal_strlit("/home/");
        reveal_strlit("/run/user/");
        reveal_strlit("C:\\Users\\");
    }
    let mut ranges: Vec<(usize, usize)> = Vec::new();
    collect_paths(chars, "/var/home/", &mut ranges);
    collect_paths(chars, "/home/", &mut ranges);
    collect_paths(chars, "/run/user/", &mut ranges);
    collect_paths(chars, "C:\\Users\\", &mut ranges);
    let ghost fixed = ranges_of(ranges@);
    let mut i: usize = 0;
    assert(fixed + home_paths(chars@, texts(homes@), 0) =~= fixed);
    while i < homes.len()
        invariant
            i <= homes@.len(),
            ranges_within(ranges_of(ranges@), chars@.len() as int),
            ranges_of(ranges@) == fixed + home_paths(chars@, texts(homes@), i as nat),
        decreases homes@.len() - i,
    {
        assert(texts(homes@)[i as int] == homes@[i as int]@);
        let ghost held = ranges_of(ranges@);
        if home_prefix(homes[i].as_str()) {
            collect_paths(chars, homes[i].as_str(), &mut ranges);
        }
        assert(ranges_of(ranges@) =~= fixed + home_paths(chars@, texts(homes@), (i + 1) as nat));
        i += 1;
    }
    assert(ranges_of(ranges@) =~= local_ranges(chars@, texts(homes@)));
    ranges
}

fn redact_path_chars(chars: &[char], homes: &[String]) -> (result: Vec<char>)
    ensures
        result@ == paths_redacted(chars@, texts(homes@)),
{
    let ranges = collect_local_ranges(chars, homes);
    proof {
        ordered_within(ranges_of(ranges@), chars@.len() as int);
    }
    let sorted = order_ranges(&ranges);
    let ghost list = ranges_of(sorted@);
    let mut output: Vec<char> = Vec::new();
    let mut cursor: usize = 0;
    let mut i: usize = 0;
    let ghost whole = paths_replaced(chars@, list, 0);
    assert(list.skip(0) =~= list);
    assert(output@ + whole =~= whole);
    while i < sorted.len()
        invariant
            i <= sorted@.len(),
            cursor <= chars@.len(),
            list == ranges_of(sorted@),
            ranges_within(list, chars@.len() as int),
            output@ + paths_replaced(chars@, list.skip(i as int), cursor as int) == whole,
        decreases sorted@.len() - i,
    {
        let range: (usize, usize) = sorted[i];
        let ghost held = output@;
        proof {
            let rest = list.skip(i as int);
            assert(rest[0] == list[i as int]);
            assert(rest.drop_first() =~= list.skip(i + 1));
        }
        if range.0 >= cursor {
            let ghost rest = paths_replaced(chars@, list.skip(i + 1), range.1 as int);
            let ghost from = cursor as int;
            push_part(&mut output, chars, cursor, range.0);
            let path = part(chars, range.0, range.1);
            let summary = summarize_path_chars(&path);
            push_chars(&mut output, &summary);
            cursor = range.1;
            assert(output@ + rest =~= held + (chars@.subrange(from, range.0 as int) + summary@
                + rest));
        }
        i += 1;
    }
    push_part(&mut output, chars, cursor, chars.len());
    assert(chars@.subrange(cursor as int, chars@.len() as int) =~= chars@.skip(cursor as int));
    output
}

/// Replaces paths below a home directory by summaries. `homes` are the values of the environment's
/// home variables.
pub fn redact_local_paths(value: &str, homes: &[String]) -> (result: String)
    ensures
        result@ == paths_redacted(value@, texts(homes@)),
{
    let chars = chars_of(value);
    let output = redact_path_chars(&chars, homes);
    string_of(&output)
}

/// Running text without servers, credentials and local directories.
pub open spec fn free_text(s: Seq<char>, homes: Seq<Seq<char>>) -> Seq<char> {
    paths_redacted(secrets_redacted(urls_masked(s, 0)), homes)
}

pub fn sanitize_free_text(value: &str, homes: &[String]) -> (result: String)
    ensures
        result@ == free_text(value@, texts(homes@)),
        urls_known(value@, 0),
{
    let chars = chars_of(value);
    let masked = mask_urls(&chars);
    let redacted = redact_secret_chars(&masked);
    let output = redact_path_chars(&redacted, homes);
    string_of(&output)
}

/// The name of a field whose value is a credential.
pub open spec fn names_secret(name: Seq<char>) -> bool {
    ||| holds(name, "password"@)
    ||| holds(name, "token"@)
    ||| holds(name, "secret"@)
    ||| holds(name, "authorization"@)
    ||| holds(name, "cookie"@)
}

/// The name itself, or a name that ends in an underscore and it.
pub open spec fn named(name: Seq<char>, word: Seq<char>, suffix: Seq<char>) -> bool {
    name == word || matches_at(name, name.len() - suffix.len(), suffix)
}

pub open spec fn names_path(name: Seq<char>) -> bool {
    ||| named(name, "path"@, "_path"@)
    ||| named(name, "root"@, "_root"@)
    ||| named(name, "directory"@, "_directory"@)
}

pub open spec fn names_url(name: Seq<char>) -> bool {
    named(name, "url"@, "_url"@) || named(name, "uri"@, "_uri"@)
}

/// How the value of a field is logged, by the field's name in lower case.
pub open spec fn field_text(name: Seq<char>, value: Seq<char>, homes: Seq<Seq<char>>) -> Seq<char> {
    let lower = lowered(name);
    if names_secret(lower) {
        "<redacted>"@
    } else if names_path(lower) {
        path_summary(value)
    } else if lower == "public_url"@ {
        public_url_summary(value)
    } else if names_url(lower) {
        url_summary(value)
    } else {
        free_text(value, homes)
    }
}

fn has_word(name: &[char], word: &str) -> (result: bool)
    ensures
        result == holds(name@, word@),
{
    let pattern = chars_of(word);
    contains_chars(name, &pattern)
}

fn is_named(name: &[char], word: &str, suffix: &str) -> (result: bool)
    ensures
        result == named(name@, word@, suffix@),
{
    let text = string_of(name);
    if same(text.as_str(), word) {
        return true;
    }
    let pattern = chars_of(suffix);
    name.len() >= pattern.len() && matches_here(name, name.len() - pattern.len(), &pattern)
}

pub fn sanitize_field(name: &str, value: &str, homes: &[String]) -> (result: String)
    ensures
        result@ == field_text(name@, value@, texts(homes@)),
{
    let lower = lower_chars(&chars_of(name));
    if has_word(&lower, "password") || has_word(&lower, "token") || has_word(&lower, "secret")
        || has_word(&lower, "authorization") || has_word(&lower, "cookie") {
        return "<redacted>".to_owned();
    }
    if is_named(&lower, "path", "_path") || is_named(&lower, "root", "_root") || is_named(
        &lower,
        "directory",
        "_directory",
    ) {
        return summarize_path(value);
    }
    let text = string_of(&lower);
    if same(text.as_str(), "public_url") {
        return summarize_public_url(value);
    }
    if is_named(&lower, "url", "_url") || is_named(&lower, "uri", "_uri") {
        return summarize_url(value);
    }
    sanitize_free_text(value, homes)
}

/// The value of a field whose name speaks of a credential is never shown, not even in part.
pub proof fn credential_fields_show_nothing(
    name: Seq<char>,
    a: Seq<char>,
    b: Seq<char>,
    homes: Seq<Seq<char>>,
)
    requires
        names_secret(lowered(name)),
    ensures
        field_text(name, a, homes) == field_text(name, b, homes),
        field_text(name, a, homes) == "<redacted>"@,
{
}

/// Of a URL field only the scheme, the path and the names of the query's keys are shown: two URLs
/// that differ in anything else, as their servers, their credentials or the values of their
/// queries, are logged alike.
pub proof fn url_summaries_hide_the_server(a: Seq<char>, b: Seq<char>)
    requires
        url_scheme(bare_url(a)) == url_scheme(bare_url(b)),
        url_path(bare_url(a)) == url_path(bare_url(b)),
        url_query_keys(bare_url(a)) == url_query_keys(bare_url(b)),
    ensures
        url_summary(a) == url_summary(b),
{
}

} // verus!
