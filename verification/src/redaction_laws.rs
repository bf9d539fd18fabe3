//! What holds of redaction as a whole.

use vstd::prelude::*;
use vstd::string::*;

use crate::redaction::{
    bare_url, free_text, is_known_url, is_web_url, url_path, url_query_keys, url_scheme, url_start,
    url_start_is_ahead, url_summary, urls_known, urls_masked, web_url,
};
use crate::text::{
    first, first_is_least, found, found_is_least, matches_at, trim_by, trim_start_by, CharClass,
};

verus! {

/// No character of the text ends a URL.
pub open spec fn is_url_part(s: Seq<char>) -> bool {
    forall|i: int| 0 <= i < s.len() ==> !CharClass::UrlEnd.has(#[trigger] s[i])
}

/// A URL as it is found in running text.
pub open spec fn is_url_text(s: Seq<char>) -> bool {
    &&& is_url_part(s)
    &&& (matches_at(s, 0, "https://"@) || matches_at(s, 0, "http://"@) || matches_at(
        s,
        0,
        "file://"@,
    ))
}

/// A URL that stands behind the text begins there and no earlier.
pub open spec fn ends_before_url(s: Seq<char>) -> bool {
    s.len() == 0 || CharClass::UrlEnd.has(s.last())
}

/// A URL that stands before the text ends there.
pub open spec fn begins_behind_url(s: Seq<char>) -> bool {
    s.len() == 0 || CharClass::UrlEnd.has(s[0])
}

proof fn schemes_are_url_parts()
    ensures
        is_url_part("https://"@),
        is_url_part("http://"@),
        is_url_part("file://"@),
        "https://"@.len() == 8,
        "http://"@.len() == 7,
        "file://"@.len() == 7,
{
    reveal_strlit("https://");
    reveal_strlit("http://");
    reveal_strlit("file://");
}

/// A position behind other text.
spec fn shifted(at: Option<int>, by: int) -> Option<int> {
    match at {
        Some(at) => Some(at + by),
        None => None,
    }
}

proof fn matches_behind(a: Seq<char>, t: Seq<char>, at: int, pattern: Seq<char>)
    requires
        0 <= at,
    ensures
        matches_at(a + t, a.len() + at, pattern) == matches_at(t, at, pattern),
{
    let s = a + t;
    if at + pattern.len() <= t.len() {
        assert(s.subrange(a.len() + at, a.len() + at + pattern.len()) =~= t.subrange(
            at,
            at + pattern.len(),
        ));
    }
}

proof fn matches_before(a: Seq<char>, t: Seq<char>, at: int, pattern: Seq<char>)
    requires
        0 <= at < a.len(),
        ends_before_url(a),
        is_url_part(pattern),
    ensures
        matches_at(a + t, at, pattern) == matches_at(a, at, pattern),
{
    let s = a + t;
    if at + pattern.len() <= a.len() {
        assert(s.subrange(at, at + pattern.len()) =~= a.subrange(at, at + pattern.len()));
    } else if matches_at(s, at, pattern) {
        let k = a.len() - 1 - at;
        assert(s.subrange(at, at + pattern.len())[k] == a.last());
        assert(!CharClass::UrlEnd.has(pattern[k]));
    }
}

proof fn found_behind(a: Seq<char>, t: Seq<char>, from: int, pattern: Seq<char>)
    requires
        0 <= from,
    ensures
        found(a + t, a.len() + from, pattern) == shifted(found(t, from, pattern), a.len() as int),
    decreases t.len() + 1 - from,
{
    matches_behind(a, t, from, pattern);
    if from + pattern.len() <= t.len() && !matches_at(t, from, pattern) {
        found_behind(a, t, from + 1, pattern);
    }
}

proof fn found_before(a: Seq<char>, t: Seq<char>, from: int, pattern: Seq<char>)
    requires
        0 <= from <= a.len(),
        ends_before_url(a),
        is_url_part(pattern),
        pattern.len() > 0,
    ensures
        found(a + t, from, pattern) == (match found(a, from, pattern) {
            Some(at) => Some(at),
            None => shifted(found(t, 0, pattern), a.len() as int),
        }),
        found(a, from, pattern) matches Some(at) ==> at < a.len(),
    decreases a.len() - from,
{
    let s = a + t;
    if from == a.len() {
        found_behind(a, t, 0, pattern);
    } else {
        matches_before(a, t, from, pattern);
        found_before(a, t, from + 1, pattern);
        if !matches_at(a, from, pattern) {
            if from + pattern.len() > s.len() {
                found_is_least(t, 0, pattern);
                if let Some(at) = found(t, 0, pattern) {
                    assert(matches_at(t, at, pattern));
                }
            }
            if from + pattern.len() > a.len() {
                found_is_least(a, from + 1, pattern);
                if let Some(at) = found(a, from + 1, pattern) {
                    assert(matches_at(a, at, pattern));
                }
            }
        }
    }
}

proof fn url_start_behind(a: Seq<char>, t: Seq<char>, from: int)
    requires
        0 <= from,
    ensures
        url_start(a + t, a.len() + from) == shifted(url_start(t, from), a.len() as int),
{
    found_behind(a, t, from, "https://"@);
    found_behind(a, t, from, "http://"@);
    found_behind(a, t, from, "file://"@);
}

proof fn url_start_before(a: Seq<char>, t: Seq<char>, from: int)
    requires
        0 <= from <= a.len(),
        ends_before_url(a),
    ensures
        url_start(a + t, from) == (match url_start(a, from) {
            Some(at) => Some(at),
            None => shifted(url_start(t, 0), a.len() as int),
        }),
        url_start(a, from) matches Some(at) ==> at < a.len(),
{
    schemes_are_url_parts();
    found_before(a, t, from, "https://"@);
    found_before(a, t, from, "http://"@);
    found_before(a, t, from, "file://"@);
    found_is_least(t, 0, "https://"@);
    found_is_least(t, 0, "http://"@);
    found_is_least(t, 0, "file://"@);
}

pub(crate) proof fn first_behind(a: Seq<char>, t: Seq<char>, from: int, class: CharClass, inside: bool)
    requires
        0 <= from,
    ensures
        first(a + t, a.len() + from, class, inside) == a.len() + first(t, from, class, inside),
    decreases t.len() - from,
{
    if from < t.len() {
        assert((a + t)[a.len() + from] == t[from]);
        if class.has(t[from]) != inside {
            first_behind(a, t, from + 1, class, inside);
        }
    }
}

proof fn first_before(a: Seq<char>, t: Seq<char>, from: int)
    requires
        0 <= from < a.len(),
        CharClass::UrlEnd.has(a.last()),
    ensures
        first(a + t, from, CharClass::UrlEnd, true) == first(a, from, CharClass::UrlEnd, true),
        first(a, from, CharClass::UrlEnd, true) < a.len(),
    decreases a.len() - from,
{
    assert((a + t)[from] == a[from]);
    if !CharClass::UrlEnd.has(a[from]) {
        first_before(a, t, from + 1);
    }
}

proof fn masked_behind(a: Seq<char>, t: Seq<char>, from: int)
    requires
        0 <= from <= t.len(),
    ensures
        urls_masked(a + t, a.len() + from) == urls_masked(t, from),
    decreases t.len() - from,
{
    let s = a + t;
    let by = a.len() as int;
    url_start_behind(a, t, from);
    match url_start(t, from) {
        Some(at) => {
            url_start_is_ahead(t, from);
            first_is_least(t, at, CharClass::UrlEnd, true);
            let end = first(t, at, CharClass::UrlEnd, true);
            first_behind(a, t, at, CharClass::UrlEnd, true);
            assert(end > at);
            masked_behind(a, t, end);
            assert(s.subrange(by + from, by + at) =~= t.subrange(from, at));
            assert(s.subrange(by + at, by + end) =~= t.subrange(at, end));
        },
        None => {
            assert(s.skip(by + from) =~= t.skip(from));
        },
    }
}

proof fn masked_in_parts(a: Seq<char>, t: Seq<char>, from: int)
    requires
        0 <= from <= a.len(),
        ends_before_url(a),
    ensures
        urls_masked(a + t, from) == urls_masked(a, from) + urls_masked(t, 0),
    decreases a.len() - from,
{
    let s = a + t;
    let by = a.len() as int;
    url_start_before(a, t, from);
    match url_start(a, from) {
        Some(at) => {
            url_start_is_ahead(a, from);
            first_before(a, t, at);
            first_is_least(a, at, CharClass::UrlEnd, true);
            let end = first(a, at, CharClass::UrlEnd, true);
            masked_in_parts(a, t, end);
            assert(s.subrange(from, at) =~= a.subrange(from, at));
            assert(s.subrange(at, end) =~= a.subrange(at, end));
            assert(urls_masked(s, from) =~= urls_masked(a, from) + urls_masked(t, 0));
        },
        None => {
            match url_start(t, 0) {
                Some(at) => {
                    url_start_is_ahead(t, 0);
                    first_is_least(t, at, CharClass::UrlEnd, true);
                    let end = first(t, at, CharClass::UrlEnd, true);
                    first_behind(a, t, at, CharClass::UrlEnd, true);
                    masked_behind(a, t, end);
                    assert(s.subrange(from, by + at) =~= a.skip(from) + t.subrange(0, at));
                    assert(s.subrange(by + at, by + end) =~= t.subrange(at, end));
                    assert(urls_masked(s, from) =~= urls_masked(a, from) + urls_masked(t, 0));
                },
                None => {
                    assert(s.skip(from) =~= a.skip(from) + t.skip(0));
                },
            }
        },
    }
}

proof fn url_starts_text(u: Seq<char>, b: Seq<char>)
    requires
        is_url_text(u),
        begins_behind_url(b),
    ensures
        url_start(u + b, 0) == Some(0int),
        first(u + b, 0, CharClass::UrlEnd, true) == u.len(),
{
    let s = u + b;
    schemes_are_url_parts();
    found_is_least(s, 0, "https://"@);
    found_is_least(s, 0, "http://"@);
    found_is_least(s, 0, "file://"@);
    if matches_at(u, 0, "https://"@) {
        assert(s.subrange(0, 8) =~= u.subrange(0, 8));
        assert(matches_at(s, 0, "https://"@));
    } else if matches_at(u, 0, "http://"@) {
        assert(s.subrange(0, 7) =~= u.subrange(0, 7));
        assert(matches_at(s, 0, "http://"@));
    } else {
        assert(s.subrange(0, 7) =~= u.subrange(0, 7));
        assert(matches_at(s, 0, "file://"@));
    }
    assert(url_start(s, 0) == Some(0int));
    let end = first(s, 0, CharClass::UrlEnd, true);
    first_is_least(s, 0, CharClass::UrlEnd, true);
    assert(end == u.len()) by {
        if end < u.len() {
            assert(s[end] == u[end]);
        }
        if u.len() < end {
            assert(s[u.len() as int] == b[0]);
        }
    }
}

proof fn masked_at_url(u: Seq<char>, b: Seq<char>)
    requires
        is_url_text(u),
        begins_behind_url(b),
    ensures
        urls_masked(u + b, 0) == url_summary(u) + urls_masked(b, 0),
{
    let s = u + b;
    url_starts_text(u, b);
    let end = first(s, 0, CharClass::UrlEnd, true);
    masked_behind(u, b, 0);
    assert(s.subrange(0, 0) =~= Seq::<char>::empty());
    assert(s.subrange(0, end) =~= u);
    assert(urls_masked(s, 0) =~= url_summary(u) + urls_masked(b, 0));
}

/// Of a URL inside running text only its scheme, its path and the names of its query's keys count:
/// two texts that differ in anything else of it, as its server, its credentials or the values of its
/// query, are logged alike.
pub proof fn running_text_hides_servers(
    a: Seq<char>,
    first_url: Seq<char>,
    second_url: Seq<char>,
    b: Seq<char>,
    homes: Seq<Seq<char>>,
)
    requires
        ends_before_url(a),
        begins_behind_url(b),
        is_url_text(first_url),
        is_url_text(second_url),
        url_scheme(bare_url(first_url)) == url_scheme(bare_url(second_url)),
        url_path(bare_url(first_url)) == url_path(bare_url(second_url)),
        url_query_keys(bare_url(first_url)) == url_query_keys(bare_url(second_url)),
    ensures
        free_text(a + first_url + b, homes) == free_text(a + second_url + b, homes),
{
    assert(a + first_url + b =~= a + (first_url + b));
    assert(a + second_url + b =~= a + (second_url + b));
    masked_in_parts(a, first_url + b, 0);
    masked_in_parts(a, second_url + b, 0);
    masked_at_url(first_url, b);
    masked_at_url(second_url, b);
}

proof fn known_behind(a: Seq<char>, t: Seq<char>, from: int)
    requires
        0 <= from <= t.len(),
    ensures
        urls_known(a + t, a.len() + from) == urls_known(t, from),
    decreases t.len() - from,
{
    let s = a + t;
    let by = a.len() as int;
    url_start_behind(a, t, from);
    if let Some(at) = url_start(t, from) {
        url_start_is_ahead(t, from);
        first_is_least(t, at, CharClass::UrlEnd, true);
        let end = first(t, at, CharClass::UrlEnd, true);
        first_behind(a, t, at, CharClass::UrlEnd, true);
        known_behind(a, t, end);
        assert(s.subrange(by + at, by + end) =~= t.subrange(at, end));
    }
}

proof fn known_in_parts(a: Seq<char>, t: Seq<char>, from: int)
    requires
        0 <= from <= a.len(),
        ends_before_url(a),
        urls_known(a + t, from),
    ensures
        urls_known(t, 0),
    decreases a.len() - from,
{
    let s = a + t;
    let by = a.len() as int;
    url_start_before(a, t, from);
    match url_start(a, from) {
        Some(at) => {
            url_start_is_ahead(a, from);
            first_before(a, t, at);
            first_is_least(a, at, CharClass::UrlEnd, true);
            known_in_parts(a, t, first(a, at, CharClass::UrlEnd, true));
        },
        None => {
            if let Some(at) = url_start(t, 0) {
                url_start_is_ahead(t, 0);
                first_is_least(t, at, CharClass::UrlEnd, true);
                let end = first(t, at, CharClass::UrlEnd, true);
                first_behind(a, t, at, CharClass::UrlEnd, true);
                known_behind(a, t, end);
                assert(s.subrange(by + at, by + end) =~= t.subrange(at, end));
            }
        },
    }
}

proof fn clean_text_is_bare(s: Seq<char>, class: CharClass)
    requires
        s.len() > 0,
        !class.has(s[0]),
        !class.has(s.last()),
    ensures
        trim_by(s, class) == s,
{
    assert(first(s, 0, class, false) == 0);
    assert(trim_start_by(s, class) =~= s);
}

proof fn found_urls_are_known(u: Seq<char>, b: Seq<char>)
    requires
        is_url_text(u),
        begins_behind_url(b),
        urls_known(u + b, 0),
    ensures
        bare_url(u) == u,
        is_known_url(u),
{
    let s = u + b;
    schemes_are_url_parts();
    url_starts_text(u, b);
    let end = first(s, 0, CharClass::UrlEnd, true);
    assert(s.subrange(0, end) =~= u);
    assert(!CharClass::UrlEnd.has(u[0]));
    assert(!CharClass::UrlEnd.has(u[u.len() - 1]));
    clean_text_is_bare(u, CharClass::White);
    clean_text_is_bare(u, CharClass::Only('"'));
}

/// What stands between the scheme and the path of a URL inside running text, and the value in its
/// query, do not show in the log. The two calls have found what is known of the URLs of each text.
pub proof fn hosts_and_values_are_not_logged(
    a: Seq<char>,
    path: Seq<char>,
    key: Seq<char>,
    first_host: Seq<char>,
    first_value: Seq<char>,
    second_host: Seq<char>,
    second_value: Seq<char>,
    b: Seq<char>,
    homes: Seq<Seq<char>>,
)
    requires
        ends_before_url(a),
        begins_behind_url(b),
        is_web_url(first_host, path, key, first_value),
        is_web_url(second_host, path, key, second_value),
        is_url_part(web_url(first_host, path, key, first_value)),
        is_url_part(web_url(second_host, path, key, second_value)),
        url_scheme(web_url(first_host, path, key, first_value)) is Some,
        url_scheme(web_url(second_host, path, key, second_value)) is Some,
        urls_known(a + web_url(first_host, path, key, first_value) + b, 0),
        urls_known(a + web_url(second_host, path, key, second_value) + b, 0),
    ensures
        free_text(a + web_url(first_host, path, key, first_value) + b, homes) == free_text(
            a + web_url(second_host, path, key, second_value) + b,
            homes,
        ),
{
    let u = web_url(first_host, path, key, first_value);
    let v = web_url(second_host, path, key, second_value);
    schemes_are_url_parts();
    assert(u.subrange(0, 8) =~= "https://"@);
    assert(v.subrange(0, 8) =~= "https://"@);
    assert(matches_at(u, 0, "https://"@) && matches_at(v, 0, "https://"@));
    assert(a + u + b =~= a + (u + b));
    assert(a + v + b =~= a + (v + b));
    known_in_parts(a, u + b, 0);
    known_in_parts(a, v + b, 0);
    found_urls_are_known(u, b);
    found_urls_are_known(v, b);
    running_text_hides_servers(a, u, v, b, homes);
}

} // verus!
