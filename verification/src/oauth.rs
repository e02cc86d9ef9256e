//! The Google sign-in: the credentials the binary was built with, access
//! tokens, the authorisation URL and form bodies, and reading the code out of a
//! redirect.
use vstd::prelude::*;
use crate::text::{chars_of, str_eq, string_of};
use crate::time::{format_rfc3339, rfc3339_text, utc_now, UtcTime};

verus! {

/// The address the browser is sent back to after signing in.
pub const REDIRECT_URI: &'static str = "http://localhost:8080";

/// The calendar scope the application asks for.
pub const CALENDAR_SCOPE: &'static str = "https://www.googleapis.com/auth/calendar.readonly";

/// The OAuth client the binary was built with.
pub struct Credentials {
    pub client_id: String,
    pub client_secret: String,
}

/// The binary was built without one of the client values.
#[derive(Debug, PartialEq, Eq)]
pub struct MissingCredentials;

impl MissingCredentials {
    pub fn message(&self) -> (m: &'static str)
        ensures
            m@ == "binary was built without Google credentials \u{2014} sync unavailable"@,
    {
        "binary was built without Google credentials \u{2014} sync unavailable"
    }
}

impl Credentials {
    /// The credentials from the client id and secret recorded at build time;
    /// an error when either is missing.
    pub fn from_env(client_id: Option<&str>, client_secret: Option<&str>) -> (r: Result<Credentials, MissingCredentials>)
        ensures
            r is Ok <==> client_id.is_some() && client_secret.is_some(),
            r matches Ok(c) ==> c.client_id@ == client_id.unwrap()@ && c.client_secret@
                == client_secret.unwrap()@,
    {
        match (client_id, client_secret) {
            (Some(id), Some(secret)) => Ok(
                Credentials { client_id: String::from_str(id), client_secret: String::from_str(secret) },
            ),
            _ => Err(MissingCredentials),
        }
    }
}

/// A cached access token.
#[derive(Clone, Debug)]
pub struct Token {
    pub access_token: String,
    pub refresh_token: Option<String>,
    pub expires_at: UtcTime,
    pub token_type: String,
}

/// `a` is at or before `b` plus `secs` seconds.
pub open spec fn spec_at_or_before_plus(a: UtcTime, b: UtcTime, secs: int) -> bool {
    a.secs < b.secs + secs || (a.secs == b.secs + secs && a.nanos <= b.nanos)
}

impl Token {
    /// The token is spent at `now`: it expires within the next 60 seconds.
    pub fn is_expired_at(&self, now: UtcTime) -> (r: bool)
        ensures
            r == spec_at_or_before_plus(self.expires_at, now, 60),
    {
        let e = self.expires_at.secs as i128;
        let n = now.secs as i128 + 60;
        e < n || (e == n && self.expires_at.nanos <= now.nanos)
    }

    /// The token expires within the next 60 seconds of the clock's reading:
    /// `is_expired_at` of some instant, the one the clock gave.
    pub fn is_expired(&self) -> (r: bool)
        ensures
            exists|now: UtcTime| now.nanos < 1_000_000_000 && r == spec_at_or_before_plus(self.expires_at, now, 60),
    {
        self.is_expired_at(utc_now())
    }
}

/// The first position of `c` in `s`.
pub open spec fn spec_find(s: Seq<char>, c: char) -> Option<int>
    decreases s.len(),
{
    if s.len() == 0 {
        None
    } else if s[0] == c {
        Some(0)
    } else {
        match spec_find(s.drop_first(), c) {
            Some(i) => Some(i + 1),
            None => None,
        }
    }
}

/// The value of `param` in the `&`-separated `key=value` pairs of `q`: the first
/// pair whose key is `param` gives it; a pair without `=` met before it ends the
/// search with nothing.
pub open spec fn spec_query_lookup(q: Seq<char>, param: Seq<char>) -> Option<Seq<char>>
    decreases q.len(),
{
    let amp = spec_find(q, '&');
    let pair = match amp {
        Some(k) => q.subrange(0, k),
        None => q,
    };
    match spec_find(pair, '=') {
        None => None,
        Some(e) => if pair.subrange(0, e) == param {
            Some(pair.subrange(e + 1, pair.len() as int))
        } else {
            match amp {
                Some(k) => if 0 <= k < q.len() {
                    spec_query_lookup(q.subrange(k + 1, q.len() as int), param)
                } else {
                    None
                },
                None => None,
            }
        },
    }
}

/// The value of `param` in the query string of `url` (after its first `?`).
pub open spec fn spec_query_param(url: Seq<char>, param: Seq<char>) -> Option<Seq<char>> {
    match spec_find(url, '?') {
        None => None,
        Some(i) => spec_query_lookup(url.subrange(i + 1, url.len() as int), param),
    }
}

pub proof fn lemma_find_bounds(s: Seq<char>, c: char)
    ensures
        spec_find(s, c) matches Some(i) ==> 0 <= i < s.len() && s[i] == c && forall|j: int|
            0 <= j < i ==> s[j] != c,
        spec_find(s, c) is None ==> forall|j: int| 0 <= j < s.len() ==> s[j] != c,
    decreases s.len(),
{
    if s.len() > 0 && s[0] != c {
        lemma_find_bounds(s.drop_first(), c);
        assert forall|j: int| 1 <= j < s.len() implies s[j] == s.drop_first()[j - 1] by {}
    }
}

/// The first position of `c` in `v` at or after `from`.
fn find_from(v: &Vec<char>, from: usize, to: usize, c: char) -> (r: Option<usize>)
    requires
        from <= to <= v.len(),
    ensures
        match r {
            Some(i) => from <= i < to && v@[i as int] == c && forall|j: int| from <= j < i ==> v@[j] != c,
            None => forall|j: int| from <= j < to ==> v@[j] != c,
        },
{
    let mut i = from;
    while i < to
        invariant
            from <= i <= to <= v.len(),
            forall|j: int| from <= j < i ==> v@[j] != c,
        decreases to - i,
    {
        if v[i] == c {
            return Some(i);
        }
        i = i + 1;
    }
    None
}

pub proof fn lemma_find_is_first(s: Seq<char>, c: char, i: int)
    requires
        0 <= i < s.len(),
        s[i] == c,
        forall|j: int| 0 <= j < i ==> s[j] != c,
    ensures
        spec_find(s, c) == Some(i),
    decreases s.len(),
{
    if i > 0 {
        lemma_find_is_first(s.drop_first(), c, i - 1);
    }
}

pub proof fn lemma_find_none(s: Seq<char>, c: char)
    requires
        forall|j: int| 0 <= j < s.len() ==> s[j] != c,
    ensures
        spec_find(s, c).is_none(),
    decreases s.len(),
{
    if s.len() > 0 {
        lemma_find_none(s.drop_first(), c);
    }
}

fn sub_chars(v: &Vec<char>, from: usize, to: usize) -> (r: Vec<char>)
    requires
        from <= to <= v.len(),
    ensures
        r@ == v@.subrange(from as int, to as int),
{
    let mut r: Vec<char> = Vec::new();
    let mut i = from;
    while i < to
        invariant
            from <= i <= to <= v.len(),
            r@ == v@.subrange(from as int, i as int),
        decreases to - i,
    {
        r.push(v[i]);
        i = i + 1;
    }
    r
}

fn eq_range(v: &Vec<char>, from: usize, to: usize, p: &Vec<char>) -> (r: bool)
    requires
        from <= to <= v.len(),
    ensures
        r == (v@.subrange(from as int, to as int) == p@),
{
    if to - from != p.len() {
        return false;
    }
    let mut i: usize = 0;
    while i < p.len()
        invariant
            to - from == p.len(),
            from <= to <= v.len(),
            i <= p.len(),
            forall|j: int| 0 <= j < i ==> v@[from + j] == p@[j],
        decreases p.len() - i,
    {
        if v[from + i] != p[i] {
            assert(v@.subrange(from as int, to as int)[i as int] != p@[i as int]);
            return false;
        }
        i = i + 1;
    }
    assert(v@.subrange(from as int, to as int) =~= p@);
    true
}

/// The value of `param` in the query string of `url`.
pub fn extract_query_param(url: &str, param: &str) -> (r: Option<String>)
    ensures
        match r {
            Some(v) => spec_query_param(url@, param@) == Some(v@),
            None => spec_query_param(url@, param@).is_none(),
        },
{
    let u = chars_of(url);
    let p = chars_of(param);
    let n = u.len();
    let q = match find_from(&u, 0, n, '?') {
        Some(q) => q,
        None => {
            proof {
                lemma_find_none(u@, '?');
            }
            return None;
        },
    };
    proof {
        lemma_find_is_first(u@, '?', q as int);
    }
    let ghost query = u@.subrange(q + 1, n as int);
    let mut start = q + 1;
    while start <= n
        invariant
            q < n,
            n == u.len(),
            u@ == url@,
            p@ == param@,
            q + 1 <= start <= n + 1,
            start <= n ==> spec_query_param(url@, param@) == spec_query_lookup(
                u@.subrange(start as int, n as int),
                param@,
            ),
            start == n + 1 ==> spec_query_param(url@, param@).is_none(),
            spec_find(url@, '?') == Some(q as int),
        decreases n + 1 - start,
    {
        let ghost rest = u@.subrange(start as int, n as int);
        let amp = find_from(&u, start, n, '&');
        let pair_end = match amp {
            Some(k) => k,
            None => n,
        };
        proof {
            match amp {
                Some(k) => {
                    assert forall|j: int| 0 <= j < k - start implies rest[j] != '&' by {}
                    lemma_find_is_first(rest, '&', k - start);
                },
                None => {
                    lemma_find_none(rest, '&');
                },
            }
        }
        let ghost pair = u@.subrange(start as int, pair_end as int);
        assert(pair =~= match spec_find(rest, '&') {
            Some(k) => rest.subrange(0, k),
            None => rest,
        });
        let eq = find_from(&u, start, pair_end, '=');
        match eq {
            None => {
                proof {
                    assert forall|j: int| 0 <= j < pair.len() implies pair[j] != '=' by {}
                    lemma_find_none(pair, '=');
                }
                return None;
            },
            Some(e) => {
                proof {
                    assert forall|j: int| 0 <= j < e - start implies pair[j] != '=' by {}
                    lemma_find_is_first(pair, '=', e - start);
                }
                assert(pair.subrange(0, e - start) =~= u@.subrange(start as int, e as int));
                if eq_range(&u, start, e, &p) {
                    let v = sub_chars(&u, e + 1, pair_end);
                    assert(pair.subrange(e - start + 1, pair.len() as int) =~= v@);
                    return Some(string_of(&v));
                }
                match amp {
                    Some(k) => {
                        assert(rest.subrange(k - start + 1, rest.len() as int) =~= u@.subrange(
                            k + 1,
                            n as int,
                        ));
                        start = k + 1;
                    },
                    None => {
                        return None;
                    },
                }
            },
        }
    }
    None
}

/// The prefix `http` at the start of `s`.
pub open spec fn spec_starts_with_http(s: Seq<char>) -> bool {
    s.len() >= 4 && s[0] == 'h' && s[1] == 't' && s[2] == 't' && s[3] == 'p'
}

/// A pasted authorisation: the `code` parameter of a pasted redirect URL, or
/// the text itself when it is no such URL.
pub open spec fn spec_code_from_input(input: Seq<char>) -> Seq<char> {
    if spec_starts_with_http(input) && spec_query_param(input, "code"@).is_some() {
        spec_query_param(input, "code"@).unwrap()
    } else {
        input
    }
}

pub fn extract_code_from_input(input: &str) -> (code: String)
    ensures
        code@ == spec_code_from_input(input@),
{
    proof {
        reveal_strlit("code");
    }
    let n = input.unicode_len();
    let http = n >= 4 && input.get_char(0) == 'h' && input.get_char(1) == 't' && input.get_char(2)
        == 't' && input.get_char(3) == 'p';
    if http {
        if let Some(code) = extract_query_param(input, "code") {
            return code;
        }
    }
    String::from_str(input)
}

/// The bytes `urlencoding` leaves as they are: ASCII letters, digits, `-`, `.`, `_`, `~`.
pub open spec fn spec_is_unreserved(b: u8) -> bool {
    (0x30 <= b && b <= 0x39) || (0x41 <= b && b <= 0x5a) || (0x61 <= b && b <= 0x7a) || b == 0x2d
        || b == 0x2e || b == 0x5f || b == 0x7e
}

/// The upper-case hex digit for `d` in 0..=15.
pub open spec fn spec_hex_digit(d: int) -> char {
    if d < 10 {
        (0x30 + d) as char
    } else {
        (0x41 - 10 + d) as char
    }
}

/// Percent-encoding of bytes: an unreserved byte stands for itself, every other
/// byte becomes `%` and its two upper-case hex digits.
pub open spec fn spec_percent_encode(bytes: Seq<u8>) -> Seq<char>
    decreases bytes.len(),
{
    if bytes.len() == 0 {
        Seq::empty()
    } else {
        let b = bytes[0];
        let head = if spec_is_unreserved(b) {
            seq![b as char]
        } else {
            seq!['%', spec_hex_digit(b as int / 16), spec_hex_digit(b as int % 16)]
        };
        head + spec_percent_encode(bytes.drop_first())
    }
}

/// `urlencoding::encode`: the UTF-8 bytes of `s`, percent-encoded.
#[verifier::external_body]
pub(crate) fn url_encode(s: &str) -> (r: String)
    ensures
        r@ == spec_percent_encode(vstd::utf8::encode_utf8(s@)),
{
    urlencoding::encode(s).into_owned()
}

/// The page that asks the user to let the application read the calendar.
pub open spec fn spec_auth_url(client_id: Seq<char>) -> Seq<char> {
    "https://accounts.google.com/o/oauth2/v2/auth?client_id="@ + spec_percent_encode(
        vstd::utf8::encode_utf8(client_id),
    ) + "&redirect_uri="@ + spec_percent_encode(vstd::utf8::encode_utf8(REDIRECT_URI@))
        + "&scope="@ + spec_percent_encode(vstd::utf8::encode_utf8(CALENDAR_SCOPE@))
        + "&access_type=offline&prompt=consent&response_type=code"@
}

pub fn build_auth_url(client_id: &str) -> (url: String)
    ensures
        url@ == spec_auth_url(client_id@),
{
    let mut url = String::from_str("https://accounts.google.com/o/oauth2/v2/auth?client_id=");
    let id = url_encode(client_id);
    url.append(id.as_str());
    url.append("&redirect_uri=");
    let r = url_encode(REDIRECT_URI);
    url.append(r.as_str());
    url.append("&scope=");
    let sc = url_encode(CALENDAR_SCOPE);
    url.append(sc.as_str());
    url.append("&access_type=offline&prompt=consent&response_type=code");
    url
}

/// The form that trades a refresh token for a new access token.
pub open spec fn spec_refresh_form(refresh_token: Seq<char>, client_id: Seq<char>, client_secret: Seq<char>) -> Seq<char> {
    "refresh_token="@ + spec_percent_encode(vstd::utf8::encode_utf8(refresh_token))
        + "&client_id="@ + spec_percent_encode(vstd::utf8::encode_utf8(client_id))
        + "&client_secret="@ + spec_percent_encode(vstd::utf8::encode_utf8(client_secret))
        + "&grant_type=refresh_token"@
}

pub fn refresh_form_body(refresh_token: &str, client_id: &str, client_secret: &str) -> (body: String)
    ensures
        body@ == spec_refresh_form(refresh_token@, client_id@, client_secret@),
{
    let mut body = String::from_str("refresh_token=");
    let a = url_encode(refresh_token);
    body.append(a.as_str());
    body.append("&client_id=");
    let b = url_encode(client_id);
    body.append(b.as_str());
    body.append("&client_secret=");
    let c = url_encode(client_secret);
    body.append(c.as_str());
    body.append("&grant_type=refresh_token");
    body
}

/// The form that trades an authorisation code for tokens.
pub open spec fn spec_exchange_form(
    code: Seq<char>,
    client_id: Seq<char>,
    client_secret: Seq<char>,
    redirect_uri: Seq<char>,
) -> Seq<char> {
    "code="@ + spec_percent_encode(vstd::utf8::encode_utf8(code)) + "&client_id="@
        + spec_percent_encode(vstd::utf8::encode_utf8(client_id)) + "&client_secret="@
        + spec_percent_encode(vstd::utf8::encode_utf8(client_secret)) + "&redirect_uri="@
        + spec_percent_encode(vstd::utf8::encode_utf8(redirect_uri))
        + "&grant_type=authorization_code"@
}

pub fn exchange_form_body(code: &str, client_id: &str, client_secret: &str, redirect_uri: &str) -> (body: String)
    ensures
        body@ == spec_exchange_form(code@, client_id@, client_secret@, redirect_uri@),
{
    let mut body = String::from_str("code=");
    let a = url_encode(code);
    body.append(a.as_str());
    body.append("&client_id=");
    let b = url_encode(client_id);
    body.append(b.as_str());
    body.append("&client_secret=");
    let c = url_encode(client_secret);
    body.append(c.as_str());
    body.append("&redirect_uri=");
    let d = url_encode(redirect_uri);
    body.append(d.as_str());
    body.append("&grant_type=authorization_code");
    body
}

/// The request for the primary calendar's single events between two times,
/// ordered by start; the times are given as RFC 3339 text.
pub open spec fn spec_events_url(time_min: Seq<char>, time_max: Seq<char>) -> Seq<char> {
    "https://www.googleapis.com/calendar/v3/calendars/primary/events?timeMin="@
        + spec_percent_encode(vstd::utf8::encode_utf8(time_min)) + "&timeMax="@
        + spec_percent_encode(vstd::utf8::encode_utf8(time_max))
        + "&singleEvents=true&orderBy=startTime"@
}

pub fn events_url(time_min: &str, time_max: &str) -> (url: String)
    ensures
        url@ == spec_events_url(time_min@, time_max@),
{
    let mut url = String::from_str(
        "https://www.googleapis.com/calendar/v3/calendars/primary/events?timeMin=",
    );
    let a = url_encode(time_min);
    url.append(a.as_str());
    url.append("&timeMax=");
    let b = url_encode(time_max);
    url.append(b.as_str());
    url.append("&singleEvents=true&orderBy=startTime");
    url
}

/// The request for the primary calendar's events between `start` and `end`,
/// both written in RFC 3339; `None` when chrono cannot represent either.
pub fn calendar_events_url(start: UtcTime, end: UtcTime) -> (url: Option<String>)
    ensures
        match (rfc3339_text(start.secs as int, start.nanos as int), rfc3339_text(end.secs as int, end.nanos as int)) {
            (Some(a), Some(b)) => url matches Some(u) && u@ == spec_events_url(a, b),
            _ => url.is_none(),
        },
{
    let a = format_rfc3339(start);
    let b = format_rfc3339(end);
    match (a, b) {
        (Some(a), Some(b)) => Some(events_url(a.as_str(), b.as_str())),
        _ => None,
    }
}

/// The `Authorization` header value: the token type, a space, the token.
pub fn authorization_header(token: &Token) -> (h: String)
    ensures
        h@ == token.token_type@ + " "@ + token.access_token@,
{
    let mut h = token.token_type.clone();
    h.append(" ");
    h.append(token.access_token.as_str());
    h
}

/// Neither `=` nor `&` occurs in `s`.
pub open spec fn spec_plain(s: Seq<char>) -> bool {
    forall|j: int| 0 <= j < s.len() ==> s[j] != '=' && s[j] != '&'
}

/// A query names a parameter's value by its first `key=value` pair: a pair for
/// `param` gives its value, whatever follows it; a pair for another key is
/// passed over to the rest of the query.
pub proof fn law_query_lookup_finds_the_pair(param: Seq<char>, key: Seq<char>, value: Seq<char>, rest: Seq<char>)
    requires
        spec_plain(param),
        spec_plain(key),
        forall|j: int| 0 <= j < value.len() ==> value[j] != '&',
    ensures
        spec_query_lookup(param + seq!['='] + value, param) == Some(value),
        spec_query_lookup(param + seq!['='] + value + seq!['&'] + rest, param) == Some(value),
        key != param ==> spec_query_lookup(key + seq!['='] + value + seq!['&'] + rest, param) == spec_query_lookup(
            rest,
            param,
        ),
{
    lemma_pair_lookup(param, param, value, rest);
    lemma_pair_lookup(key, param, value, rest);
}

proof fn lemma_pair_lookup(key: Seq<char>, param: Seq<char>, value: Seq<char>, rest: Seq<char>)
    requires
        spec_plain(key),
        forall|j: int| 0 <= j < value.len() ==> value[j] != '&',
    ensures
        key == param ==> spec_query_lookup(key + seq!['='] + value, param) == Some(value),
        key == param ==> spec_query_lookup(key + seq!['='] + value + seq!['&'] + rest, param) == Some(value),
        key != param ==> spec_query_lookup(key + seq!['='] + value + seq!['&'] + rest, param) == spec_query_lookup(
            rest,
            param,
        ),
{
    let pair = key + seq!['='] + value;
    let q = pair + seq!['&'] + rest;
    let n = key.len();
    assert(pair[n as int] == '=');
    assert forall|j: int| 0 <= j < n implies pair[j] != '=' by {
        assert(pair[j] == key[j]);
    }
    lemma_find_is_first(pair, '=', n as int);
    assert(pair.subrange(0, n as int) =~= key);
    assert(pair.subrange((n + 1) as int, pair.len() as int) =~= value);
    assert forall|j: int| 0 <= j < pair.len() implies pair[j] != '&' by {
        if j < n {
            assert(pair[j] == key[j]);
        } else if j > n {
            assert(pair[j] == value[j - n - 1]);
        }
    }
    lemma_find_none(pair, '&');
    assert(q[pair.len() as int] == '&');
    assert forall|j: int| 0 <= j < pair.len() implies q[j] != '&' by {
        assert(q[j] == pair[j]);
    }
    lemma_find_is_first(q, '&', pair.len() as int);
    assert(q.subrange(0, pair.len() as int) =~= pair);
    assert(q.subrange((pair.len() + 1) as int, q.len() as int) =~= rest);
}

} // verus!
