//! Browser sessions: cookies, form tokens, and what a request must prove.

use vstd::prelude::*;
use vstd::string::*;
use vstd::utf8::*;

use crate::api::authorization::{checked, Address, Authorization, Denied};
use crate::digest::{
    blake3_keyed, drawn_text, hex, hex_reads_one_way, hex_round_trip, hex_text, is_hex_of,
    keyed_hash, parse_hex, random_bytes,
};
use crate::text::{
    chars_of, decimal, decimal_text, first, first_is_least, joined, matches_at, number_round_trip,
    part, position, same, shown, starts_with, string_of, texts, trim_chars, trimmed, CharClass,
};

verus! {

/// The port in the authority of a URL, where the text is one and has a port.
pub uninterp spec fn authority_port(host: Seq<char>) -> Option<u16>;

/// `http::uri::Authority`, parsed from a text, and its `port_u16`: a function of the text.
#[verifier::external_body]
fn port_of(host: &str) -> (result: Option<u16>)
    ensures
        result == authority_port(host@),
{
    host.parse::<axum::http::uri::Authority>().ok().and_then(|authority| authority.port_u16())
}

/// A new secret: 64 hexadecimal digits that depend on chance. `drawn_text` says what becomes of
/// each draw.
pub fn random_secret() -> (result: Result<String, String>)
    ensures
        result matches Ok(secret) ==> exists|bytes: Seq<u8>| bytes.len() == 32 && secret@
            == #[trigger] hex(bytes),
{
    drawn_text(random_bytes(32))
}

/// The name of the session cookie for a host. Players on different ports keep theirs apart.
pub open spec fn cookie_for(host: Option<Seq<char>>) -> Seq<char> {
    "rufin-session-"@ + decimal(
        match host {
            Some(host) => match authority_port(host) {
                Some(port) => port as nat,
                None => 0,
            },
            None => 0,
        },
    )
}

pub fn cookie_name(host: Option<&str>) -> (result: String)
    ensures
        result@ == cookie_for(
            match host {
                Some(host) => Some(host@),
                None => None,
            },
        ),
{
    let port: u64 = match host {
        Some(host) => match port_of(host) {
            Some(port) => port as u64,
            None => 0,
        },
        None => 0,
    };
    joined("rufin-session-", decimal_text(port).as_str())
}

/// The value that a segment of a cookie header gives to a name.
pub open spec fn segment_value(segment: Seq<char>, name: Seq<char>) -> Option<Seq<char>> {
    let s = trimmed(segment);
    let at = first(s, 0, CharClass::Only('='), true);
    if at < s.len() && s.take(at) == name {
        Some(s.skip(at + 1))
    } else {
        None
    }
}

/// The first value that a cookie header gives to a name, from `from` on.
pub open spec fn header_value(header: Seq<char>, name: Seq<char>, from: int) -> Option<Seq<char>>
    decreases header.len() - from,
    when 0 <= from <= header.len()
{
    let end = first(header, from, CharClass::Only(';'), true);
    proof {
        first_is_least(header, from, CharClass::Only(';'), true);
    }
    match segment_value(header.subrange(from, end), name) {
        Some(value) => Some(value),
        None => if end < header.len() {
            header_value(header, name, end + 1)
        } else {
            None
        },
    }
}

/// The first value that cookie headers give to a name.
pub open spec fn cookie_value(headers: Seq<Seq<char>>, name: Seq<char>) -> Option<Seq<char>>
    decreases headers.len(),
{
    if headers.len() == 0 {
        None
    } else {
        match header_value(headers[0], name, 0) {
            Some(value) => Some(value),
            None => cookie_value(headers.drop_first(), name),
        }
    }
}

fn value_in_segment(segment: &[char], name: &str) -> (result: Option<String>)
    ensures
        shown(result) == segment_value(segment@, name@),
{
    let inner = trim_chars(segment, CharClass::White);
    let at: usize = position(&inner, 0, CharClass::Only('='), true);
    if at >= inner.len() {
        return None;
    }
    let own = part(&inner, 0, at);
    assert(own@ =~= inner@.take(at as int));
    if !same(string_of(&own).as_str(), name) {
        return None;
    }
    let value = part(&inner, at + 1, inner.len());
    assert(value@ =~= inner@.skip(at + 1));
    Some(string_of(&value))
}

fn value_in_header(header: &str, name: &str) -> (result: Option<String>)
    ensures
        shown(result) == header_value(header@, name@, 0),
{
    let chars = chars_of(header);
    let length: usize = chars.len();
    let mut from: usize = 0;
    loop
        invariant
            chars@ == header@,
            from <= length == chars@.len(),
            header_value(header@, name@, 0) == header_value(header@, name@, from as int),
        decreases length - from,
    {
        let end: usize = position(&chars, from, CharClass::Only(';'), true);
        let segment = part(&chars, from, end);
        if let Some(value) = value_in_segment(&segment, name) {
            return Some(value);
        }
        if end >= length {
            return None;
        }
        from = end + 1;
    }
}

/// The value of the session cookie among the cookie headers of a request.
pub fn cookie(headers: &Vec<String>, name: &str) -> (result: Option<String>)
    ensures
        shown(result) == cookie_value(texts(headers@), name@),
{
    let ghost list = texts(headers@);
    let mut i: usize = 0;
    assert(list.skip(0) =~= list);
    while i < headers.len()
        invariant
            i <= headers@.len(),
            list == texts(headers@),
            cookie_value(list, name@) == cookie_value(list.skip(i as int), name@),
        decreases headers@.len() - i,
    {
        proof {
            assert(list.skip(i as int)[0] == headers@[i as int]@);
            assert(list.skip(i as int).drop_first() =~= list.skip(i + 1));
        }
        if let Some(value) = value_in_header(headers[i].as_str(), name) {
            return Some(value);
        }
        i += 1;
    }
    None
}

/// The signature of a session's secret.
pub open spec fn signature(key: Seq<u8>, nonce: Seq<char>) -> Seq<u8> {
    blake3_keyed(key, encode_utf8(nonce))
}

/// What the session cookie of a signed secret holds.
pub open spec fn session_value(key: Seq<u8>, nonce: Seq<char>) -> Seq<char> {
    nonce + "."@ + hex(signature(key, nonce))
}

/// The secret of a session cookie whose signature is right.
pub open spec fn signed_nonce(key: Seq<u8>, value: Seq<char>) -> Option<Seq<char>> {
    let dot = first(value, 0, CharClass::Only('.'), true);
    let nonce = value.take(dot);
    if dot < value.len() && is_hex_of(value.skip(dot + 1), signature(key, nonce)) {
        Some(nonce)
    } else {
        None
    }
}

/// The secret of a request's session.
pub open spec fn session_of(
    key: Seq<u8>,
    host: Option<Seq<char>>,
    cookies: Seq<Seq<char>>,
) -> Option<Seq<char>> {
    match cookie_value(cookies, cookie_for(host)) {
        Some(value) => signed_nonce(key, value),
        None => None,
    }
}

/// The headers of a request that sessions look at.
pub struct SessionHeaders {
    pub host: Option<String>,
    pub cookies: Vec<String>,
}

impl SessionHeaders {
    pub open spec fn session(&self, key: Seq<u8>) -> Option<Seq<char>> {
        session_of(key, shown(self.host), texts(self.cookies@))
    }

    fn name(&self) -> (result: String)
        ensures
            result@ == cookie_for(shown(self.host)),
    {
        match &self.host {
            Some(host) => cookie_name(Some(host.as_str())),
            None => cookie_name(None),
        }
    }
}

/// Compares all bytes, wherever the first difference is, so that the time taken does not tell.
fn same_bytes(a: &[u8], b: &[u8]) -> (result: bool)
    ensures
        result == (a@ == b@),
{
    if a.len() != b.len() {
        return false;
    }
    let mut differences: u8 = 0;
    let mut i: usize = 0;
    assert(a@.take(0) =~= b@.take(0));
    while i < a.len()
        invariant
            i <= a@.len() == b@.len(),
            (differences == 0) == (a@.take(i as int) == b@.take(i as int)),
        decreases a@.len() - i,
    {
        let (x, y): (u8, u8) = (a[i], b[i]);
        proof {
            assert((differences | (x ^ y)) == 0 <==> (differences == 0 && x == y)) by (bit_vector);
            let (s, t) = (a@.take(i + 1), b@.take(i + 1));
            assert(s =~= a@.take(i as int).push(x) && t =~= b@.take(i as int).push(y));
            assert(s == t ==> s.drop_last() == t.drop_last() && s.last() == t.last());
            assert(s.drop_last() =~= a@.take(i as int) && t.drop_last() =~= b@.take(i as int));
        }
        differences = differences | (x ^ y);
        i += 1;
    }
    assert(a@.take(i as int) =~= a@ && b@.take(i as int) =~= b@);
    differences == 0
}

/// The secret of a session value, where its signature is right.
pub fn verify_session(key: &[u8; 32], value: &str) -> (result: Option<String>)
    ensures
        shown(result) == signed_nonce(key@, value@),
{
    let chars = chars_of(value);
    let dot: usize = position(&chars, 0, CharClass::Only('.'), true);
    if dot >= chars.len() {
        return None;
    }
    let nonce_chars = part(&chars, 0, dot);
    let rest = part(&chars, dot + 1, chars.len());
    assert(nonce_chars@ =~= value@.take(dot as int));
    assert(rest@ =~= value@.skip(dot + 1));
    let nonce = string_of(&nonce_chars);
    let expected = keyed_hash(key, nonce.as_str().as_bytes());
    match parse_hex(&rest, 32) {
        Some(bytes) => if same_bytes(&bytes, &expected) {
            Some(nonce)
        } else {
            proof {
                if is_hex_of(rest@, expected@) {
                    hex_reads_one_way(rest@, bytes@, expected@);
                }
            }
            None
        },
        None => None,
    }
}

/// The secret of a request's session, where it has one.
pub fn session(auth: &Authorization, headers: &SessionHeaders) -> (result: Option<String>)
    ensures
        shown(result) == headers.session(auth.key()),
{
    let name = headers.name();
    match cookie(&headers.cookies, name.as_str()) {
        Some(value) => verify_session(auth.browser_key(), value.as_str()),
        None => None,
    }
}

/// The value of the session cookie for a secret.
pub fn sign_session(auth: &Authorization, nonce: &str) -> (result: String)
    ensures
        result@ == session_value(auth.key(), nonce@),
{
    let digest = keyed_hash(auth.browser_key(), nonce.as_bytes());
    let mut value = joined(nonce, ".");
    value.append(hex_text(&digest).as_str());
    value
}

proof fn first_of(s: Seq<char>, from: int, at: int, class: CharClass)
    requires
        0 <= from <= at <= s.len(),
        forall|i: int| from <= i < at ==> !class.has(#[trigger] s[i]),
        at == s.len() || class.has(s[at]),
    ensures
        first(s, from, class, true) == at,
    decreases at - from,
{
    if from < at {
        first_of(s, from + 1, at, class);
    }
}

proof fn hex_is_plain(bytes: Seq<u8>)
    ensures
        forall|i: int|
            0 <= i < hex(bytes).len() ==> ('0' <= (#[trigger] hex(bytes)[i]) && hex(bytes)[i] <= '9')
                || ('a' <= hex(bytes)[i] && hex(bytes)[i] <= 'f'),
{
    assert forall|i: int| 0 <= i < hex(bytes).len() implies ('0' <= (#[trigger] hex(bytes)[i])
        && hex(bytes)[i] <= '9') || ('a' <= hex(bytes)[i] && hex(bytes)[i] <= 'f') by {
        let n: u8 = if i % 2 == 0 {
            bytes[i / 2] / 16
        } else {
            bytes[i / 2] % 16
        };
        assert(n < 16);
    }
}

/// A session value that was signed is accepted and gives its secret back.
pub proof fn signed_sessions_are_accepted(key: Seq<u8>, nonce: Seq<char>)
    requires
        forall|i: int| 0 <= i < nonce.len() ==> #[trigger] nonce[i] != '.',
    ensures
        signed_nonce(key, session_value(key, nonce)) == Some(nonce),
{
    let value = session_value(key, nonce);
    let dot = nonce.len() as int;
    reveal_strlit(".");
    assert forall|i: int| 0 <= i < dot implies !CharClass::Only('.').has(#[trigger] value[i]) by {
        assert(value[i] == nonce[i]);
    }
    assert(value[dot] == '.');
    first_of(value, 0, dot, CharClass::Only('.'));
    assert(value.take(dot) =~= nonce);
    assert(value.skip(dot + 1) =~= hex(signature(key, nonce)));
    hex_round_trip(signature(key, nonce));
}

proof fn unpadded_stays(s: Seq<char>)
    requires
        s.len() > 0,
        !CharClass::White.has(s[0]),
        !CharClass::White.has(s.last()),
    ensures
        trimmed(s) == s,
{
    assert(first(s, 0, CharClass::White, false) == 0);
    assert(s.skip(0) =~= s);
}

/// A cookie that a browser sends back has the value that it was given.
pub proof fn cookies_read_back(name: Seq<char>, value: Seq<char>)
    requires
        name.len() > 0,
        !CharClass::White.has(name[0]),
        forall|i: int| 0 <= i < name.len() ==> #[trigger] name[i] != ';' && name[i] != '=',
        value.len() > 0,
        !CharClass::White.has(value.last()),
        forall|i: int| 0 <= i < value.len() ==> #[trigger] value[i] != ';',
    ensures
        cookie_value(seq![name + "="@ + value], name) == Some(value),
{
    reveal_strlit("=");
    let header = name + "="@ + value;
    let at = name.len() as int;
    assert forall|i: int| 0 <= i < header.len() implies !CharClass::Only(';').has(
        #[trigger] header[i],
    ) by {
        if i < at {
            assert(header[i] == name[i]);
        } else if i > at {
            assert(header[i] == value[i - at - 1]);
        }
    }
    first_of(header, 0, header.len() as int, CharClass::Only(';'));
    assert(header.subrange(0, header.len() as int) =~= header);
    assert(header[0] == name[0]);
    assert(header.last() == value.last());
    unpadded_stays(header);
    assert forall|i: int| 0 <= i < at implies !CharClass::Only('=').has(#[trigger] header[i]) by {
        assert(header[i] == name[i]);
    }
    first_of(header, 0, at, CharClass::Only('='));
    assert(header.take(at) =~= name);
    assert(header.skip(at + 1) =~= value);
    assert(seq![header][0] == header);
}

/// A browser that sends back the cookie of its login has its session, for every secret that holds
/// neither a dot nor a semicolon, as no generated one does.
pub proof fn logins_start_sessions(key: Seq<u8>, host: Option<Seq<char>>, nonce: Seq<char>)
    requires
        forall|i: int| 0 <= i < nonce.len() ==> #[trigger] nonce[i] != '.' && nonce[i] != ';',
    ensures
        session_of(
            key,
            host,
            seq![cookie_for(host) + "="@ + session_value(key, nonce)],
        ) == Some(nonce),
{
    let port: nat = match host {
        Some(host) => match authority_port(host) {
            Some(port) => port as nat,
            None => 0,
        },
        None => 0,
    };
    let name = cookie_for(host);
    let value = session_value(key, nonce);
    let digits = decimal(port);
    let prefix = "rufin-session-"@;
    number_round_trip(port, port);
    reveal_strlit("rufin-session-");
    reveal_strlit(".");
    assert(name[0] == 'r');
    assert forall|i: int| 0 <= i < name.len() implies #[trigger] name[i] != ';' && name[i] != '=' by {
        if i < prefix.len() {
            assert(name[i] == prefix[i]);
        } else {
            assert(name[i] == digits[i - prefix.len()]);
            assert(CharClass::Digit.has(digits[i - prefix.len()]));
        }
    }
    let tail = hex(signature(key, nonce));
    hex_is_plain(signature(key, nonce));
    assert forall|i: int| 0 <= i < value.len() implies #[trigger] value[i] != ';' by {
        if i < nonce.len() {
            assert(value[i] == nonce[i]);
        } else if i > nonce.len() {
            assert(value[i] == tail[i - nonce.len() - 1]);
        }
    }
    assert(!CharClass::White.has(value.last())) by {
        if tail.len() == 0 {
            assert(value.last() == '.');
        } else {
            assert(value.last() == tail[tail.len() - 1]);
        }
    }
    cookies_read_back(name, value);
    signed_sessions_are_accepted(key, nonce);
}

/// Only a secret with its signature under the player's own key makes a session.
pub proof fn sessions_are_signed(key: Seq<u8>, value: Seq<char>, nonce: Seq<char>)
    requires
        signed_nonce(key, value) == Some(nonce),
    ensures
        exists|at: int|
            0 <= at < value.len() && value.take(at) == nonce && is_hex_of(
                #[trigger] value.skip(at + 1),
                signature(key, nonce),
            ),
{
    first_is_least(value, 0, CharClass::Only('.'), true);
    let at = first(value, 0, CharClass::Only('.'), true);
    assert(is_hex_of(value.skip(at + 1), signature(key, nonce)));
}

/// A form must carry the secret of its session.
pub fn form_session(auth: &Authorization, headers: &SessionHeaders, csrf: Option<&str>) -> (result:
    Result<(), Denied>)
    ensures
        result == match headers.session(auth.key()) {
            None => Err::<(), Denied>(Denied::ConnectAgain),
            Some(secret) => if csrf matches Some(csrf) && csrf@ == secret {
                Ok(())
            } else {
                Err(Denied::InvalidForm)
            },
        },
{
    match session(auth, headers) {
        None => Err(Denied::ConnectAgain),
        Some(secret) => match csrf {
            Some(csrf) => if same(csrf, secret.as_str()) {
                Ok(())
            } else {
                Err(Denied::InvalidForm)
            },
            None => Err(Denied::InvalidForm),
        },
    }
}

/// What a request shows of who sends it.
pub struct RequestFacts {
    pub address: Address,
    /// The value of the authorization header.
    pub token: Option<String>,
    pub headers: SessionHeaders,
    /// The request only reads.
    pub reads: bool,
    /// The secret in a submitted form, and the one in the request's own header.
    pub form_csrf: Option<String>,
    pub header_csrf: Option<String>,
}

/// The secret that a request submits.
pub open spec fn submitted(facts: RequestFacts) -> Option<Seq<char>> {
    if facts.form_csrf is Some {
        shown(facts.form_csrf)
    } else {
        shown(facts.header_csrf)
    }
}

impl Authorization {
    /// Decides whether a request is served. A session stands in for the token, but must prove its
    /// secret for everything that does more than read.
    pub fn authorize(&mut self, facts: &RequestFacts, now: u64) -> (result: Result<(), Denied>)
        ensures
            final(self).accepted() == old(self).accepted(),
            final(self).key() == old(self).key(),
            facts.token is None && facts.headers.session(old(self).key()) is Some ==> {
                &&& *final(self) == *old(self)
                &&& result == if facts.reads || submitted(*facts) == facts.headers.session(
                    old(self).key(),
                ) {
                    Ok::<(), Denied>(())
                } else {
                    Err(Denied::InvalidForm)
                }
            },
            !(facts.token is None && facts.headers.session(old(self).key()) is Some) ==> (
            result,
            final(self).failures_view(),
            ) == checked(
                old(self).failures_view(),
                facts.address,
                shown(facts.token) == Some(old(self).accepted()),
                now,
            ),
    {
        if facts.token.is_none() {
            if let Some(secret) = session(self, &facts.headers) {
                if facts.reads {
                    return Ok(());
                }
                let given: &Option<String> = if facts.form_csrf.is_some() {
                    &facts.form_csrf
                } else {
                    &facts.header_csrf
                };
                let matches: bool = match given {
                    Some(csrf) => same(csrf.as_str(), secret.as_str()),
                    None => false,
                };
                return if matches {
                    Ok(())
                } else {
                    Err(Denied::InvalidForm)
                };
            }
        }
        match &facts.token {
            Some(token) => self.check(facts.address, Some(token.as_str()), now),
            None => self.check(facts.address, None, now),
        }
    }
}

/// Whether a request carries a form: by its content type without parameters.
pub fn is_form(content_type: Option<&str>) -> (result: bool)
    ensures
        result == (content_type matches Some(value) && value@.take(
            first(value@, 0, CharClass::Only(';'), true),
        ) == "application/x-www-form-urlencoded"@),
{
    match content_type {
        Some(value) => {
            let chars = chars_of(value);
            let end: usize = position(&chars, 0, CharClass::Only(';'), true);
            let kind = part(&chars, 0, end);
            assert(kind@ =~= value@.take(end as int));
            same(string_of(&kind).as_str(), "application/x-www-form-urlencoded")
        },
        None => false,
    }
}

/// A place of this player's own pages, in one line.
pub open spec fn is_return(target: Seq<char>) -> bool {
    matches_at(target, 0, "/?"@) && forall|i: int|
        0 <= i < target.len() ==> #[trigger] target[i] != '\r' && target[i] != '\n'
}

/// Where a browser goes after a form: to the page it came from, or to the start.
pub fn return_target(wanted: Option<&str>) -> (result: String)
    ensures
        result@ == match wanted {
            Some(target) => if is_return(target@) {
                target@
            } else {
                "/"@
            },
            None => "/"@,
        },
{
    if let Some(target) = wanted {
        let chars = chars_of(target);
        let mut clean: bool = true;
        let mut i: usize = 0;
        while i < chars.len() && clean
            invariant
                i <= chars@.len(),
                chars@ == target@,
                clean ==> forall|j: int|
                    0 <= j < i ==> #[trigger] chars@[j] != '\r' && chars@[j] != '\n',
                !clean ==> exists|j: int|
                    0 <= j < chars@.len() && (#[trigger] chars@[j] == '\r' || chars@[j] == '\n'),
            decreases chars@.len() - i,
        {
            if chars[i] == '\r' || chars[i] == '\n' {
                clean = false;
                assert(chars@[i as int] == '\r' || chars@[i as int] == '\n');
            }
            i += 1;
        }
        if clean && starts_with(target, "/?") {
            return target.to_owned();
        }
    }
    "/".to_owned()
}

/// A browser is never sent away from this player's own pages.
pub proof fn returns_stay_on_the_player(target: Seq<char>)
    requires
        is_return(target),
    ensures
        target.len() >= 2 && target[0] == '/' && target[1] == '?',
{
    reveal_strlit("/?");
    assert(target.subrange(0, 2) == "/?"@);
    assert(target[0] == target.subrange(0, 2)[0]);
    assert(target[1] == target.subrange(0, 2)[1]);
}

/// The lifetime of a browser session in seconds: a year.
pub const BROWSER_SESSION_AGE: u64 = 31_536_000;

/// The header that sets the session cookie.
pub open spec fn cookie_header(
    name: Seq<char>,
    value: Seq<char>,
    age: Option<u64>,
    secure: bool,
) -> Seq<char> {
    name + "="@ + value + "; Path=/; HttpOnly; SameSite=Lax"@ + (match age {
        Some(age) => "; Max-Age="@ + decimal(age as nat),
        None => ""@,
    }) + (if secure {
        "; Secure"@
    } else {
        ""@
    })
}

pub fn set_cookie(name: &str, value: &str, age: Option<u64>, origin: Option<&str>) -> (result: String)
    ensures
        result@ == cookie_header(
            name@,
            value@,
            age,
            origin matches Some(origin) && matches_at(origin@, 0, "https://"@),
        ),
{
    let secure: bool = match origin {
        Some(origin) => starts_with(origin, "https://"),
        None => false,
    };
    let mut text = joined(name, "=");
    text.append(value);
    text.append("; Path=/; HttpOnly; SameSite=Lax");
    let mut lifetime = "".to_owned();
    if let Some(age) = age {
        lifetime = joined("; Max-Age=", decimal_text(age).as_str());
    }
    text.append(lifetime.as_str());
    if secure {
        text.append("; Secure");
    } else {
        text.append("");
    }
    text
}

/// How a login is answered.
#[derive(Clone, Copy, Debug, PartialEq, Eq, Structural)]
pub enum LoginFailure {
    /// The browser goes back to the login page.
    Retry,
    Denied(Denied),
}

impl Authorization {
    /// Checks the token of a login. The token itself is checked; an existing session does not count.
    pub fn login(
        &mut self,
        address: Address,
        token: Option<&str>,
        now: u64,
        wants_json: bool,
    ) -> (result: Result<(), LoginFailure>)
        ensures
            final(self).accepted() == old(self).accepted(),
            final(self).key() == old(self).key(),
            ({
                let given = "Bearer "@ + (match token {
                    Some(token) => token@,
                    None => ""@,
                });
                let (answer, failures) = checked(
                    old(self).failures_view(),
                    address,
                    given == old(self).accepted(),
                    now,
                );
                &&& final(self).failures_view() == failures
                &&& result == match answer {
                    Ok(()) => Ok::<(), LoginFailure>(()),
                    Err(denied) => Err(
                        if denied == Denied::Unauthorized && !wants_json {
                            LoginFailure::Retry
                        } else {
                            LoginFailure::Denied(denied)
                        },
                    ),
                }
            }),
    {
        let given = joined(
            "Bearer ",
            match token {
                Some(token) => token,
                None => "",
            },
        );
        match self.check(address, Some(given.as_str()), now) {
            Ok(()) => Ok(()),
            Err(denied) => if wants_json {
                Err(LoginFailure::Denied(denied))
            } else {
                match denied {
                    Denied::Unauthorized => Err(LoginFailure::Retry),
                    _ => Err(LoginFailure::Denied(denied)),
                }
            },
        }
    }

    /// The secret of the session that a login starts: that of the session at hand, or a fresh one.
    pub fn login_secret(&self, headers: &SessionHeaders, fresh: String) -> (result: String)
        ensures
            result@ == match headers.session(self.key()) {
                Some(secret) => secret,
                None => fresh@,
            },
    {
        match session(self, headers) {
            Some(secret) => secret,
            None => fresh,
        }
    }
}

} // verus!
