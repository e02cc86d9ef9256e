//! The Google side of meeting sync: which listed calendar events become
//! meetings, the access token a token response stands for, the code an
//! authorisation redirect or a pasted line carries, and which token to use.
use vstd::prelude::*;
use crate::json::{json_str_field, json_text_field, json_u64_field, json_u64_value};
use crate::model::CalendarEvent;
use crate::oauth::{extract_code_from_input, extract_query_param, lemma_find_bounds, lemma_find_is_first,
    lemma_find_none, spec_at_or_before_plus, spec_code_from_input, spec_find, spec_query_param, Token};
use crate::text::{chars_of, is_whitespace, spec_is_whitespace, spec_trim, string_of, trim_chars};
use crate::time::{parse_rfc3339, rfc3339_instant, UtcTime};

verus! {

/// When a listed event starts; all-day events have no `dateTime`.
pub struct GoogleEventTime {
    pub date_time: Option<String>,
}

/// An event as the calendar API lists it.
pub struct GoogleEvent {
    pub summary: Option<String>,
    pub start: Option<GoogleEventTime>,
}

/// The meeting a listed event stands for: one with a non-empty title and a start
/// time in RFC 3339.
pub open spec fn spec_event_meeting(e: GoogleEvent) -> Option<(Seq<char>, UtcTime)> {
    match e.summary {
        Some(s) => if s@.len() == 0 {
            None
        } else {
            match e.start {
                Some(st) => match st.date_time {
                    Some(d) => match rfc3339_instant(d@) {
                        Some(t) => Some((s@, t)),
                        None => None,
                    },
                    None => None,
                },
                None => None,
            }
        },
        None => None,
    }
}

/// The meetings of the listed events, in the order listed.
pub open spec fn spec_calendar_events(items: Seq<GoogleEvent>) -> Seq<(Seq<char>, UtcTime)>
    decreases items.len(),
{
    if items.len() == 0 {
        Seq::empty()
    } else {
        let before = spec_calendar_events(items.drop_last());
        match spec_event_meeting(items.last()) {
            Some(m) => before.push(m),
            None => before,
        }
    }
}

pub open spec fn spec_event_views(es: Seq<CalendarEvent>) -> Seq<(Seq<char>, UtcTime)> {
    es.map_values(|e: CalendarEvent| (e.name@, e.scheduled_at))
}

fn event_meeting(e: &GoogleEvent) -> (r: Option<CalendarEvent>)
    ensures
        match r {
            Some(c) => spec_event_meeting(*e) == Some((c.name@, c.scheduled_at)),
            None => spec_event_meeting(*e).is_none(),
        },
{
    match &e.summary {
        Some(s) => {
            if s.unicode_len() == 0 {
                return None;
            }
            match &e.start {
                Some(st) => match &st.date_time {
                    Some(d) => match parse_rfc3339(d.as_str()) {
                        Some(t) => Some(CalendarEvent { name: s.clone(), scheduled_at: t }),
                        None => None,
                    },
                    None => None,
                },
                None => None,
            }
        },
        None => None,
    }
}

/// The meetings the calendar lists, as the sync takes them in.
pub fn calendar_events(items: &Vec<GoogleEvent>) -> (events: Vec<CalendarEvent>)
    ensures
        spec_event_views(events@) == spec_calendar_events(items@),
{
    let mut events: Vec<CalendarEvent> = Vec::new();
    let mut i: usize = 0;
    while i < items.len()
        invariant
            i <= items.len(),
            spec_event_views(events@) == spec_calendar_events(items@.subrange(0, i as int)),
        decreases items.len() - i,
    {
        let ghost sub = items@.subrange(0, i + 1);
        assert(sub.drop_last() =~= items@.subrange(0, i as int));
        assert(sub.last() == items@[i as int]);
        match event_meeting(&items[i]) {
            Some(c) => {
                let ghost prev = events@;
                events.push(c);
                assert(spec_event_views(events@) =~= spec_event_views(prev).push((c.name@, c.scheduled_at)));
            },
            None => {},
        }
        i = i + 1;
    }
    assert(items@.subrange(0, items.len() as int) =~= items@);
    events
}

/// The most seconds a token response may give for the token's life.
pub const MAX_EXPIRES_IN: u64 = 9_223_372_036_854_775;

/// Why a token response gave no token.
#[derive(Debug, PartialEq, Eq, Structural)]
pub enum TokenResponseError {
    NotJson,
    MissingAccessToken,
    MissingTokenType,
    MissingExpiresIn,
    /// The token's life is longer than a time can hold.
    ExpiryOutOfRange,
}

impl TokenResponseError {
    /// The error's message, for the response to a refresh or to a code exchange.
    pub fn message(&self, refreshing: bool) -> (m: &'static str)
        ensures
            refreshing && *self == TokenResponseError::NotJson ==> m@ == "failed to parse refresh token response"@,
            !refreshing && *self == TokenResponseError::NotJson ==> m@ == "failed to parse token exchange response"@,
            refreshing && *self == TokenResponseError::MissingAccessToken ==> m@
                == "missing access_token in refresh response"@,
            !refreshing && *self == TokenResponseError::MissingAccessToken ==> m@ == "missing access_token in response"@,
            refreshing && *self == TokenResponseError::MissingTokenType ==> m@
                == "missing token_type in refresh response"@,
            !refreshing && *self == TokenResponseError::MissingTokenType ==> m@ == "missing token_type in response"@,
            refreshing && *self == TokenResponseError::MissingExpiresIn ==> m@
                == "missing expires_in in refresh response"@,
            !refreshing && *self == TokenResponseError::MissingExpiresIn ==> m@ == "missing expires_in in response"@,
            *self == TokenResponseError::ExpiryOutOfRange ==> m@ == "expires_in out of range"@,
    {
        match (self, refreshing) {
            (TokenResponseError::NotJson, true) => "failed to parse refresh token response",
            (TokenResponseError::NotJson, false) => "failed to parse token exchange response",
            (TokenResponseError::MissingAccessToken, true) => "missing access_token in refresh response",
            (TokenResponseError::MissingAccessToken, false) => "missing access_token in response",
            (TokenResponseError::MissingTokenType, true) => "missing token_type in refresh response",
            (TokenResponseError::MissingTokenType, false) => "missing token_type in response",
            (TokenResponseError::MissingExpiresIn, true) => "missing expires_in in refresh response",
            (TokenResponseError::MissingExpiresIn, false) => "missing expires_in in response",
            (TokenResponseError::ExpiryOutOfRange, _) => "expires_in out of range",
        }
    }
}

/// The token a response from the token endpoint stands for, received at `now`.
/// A refresh keeps the refresh token it used (`kept_refresh`); a code exchange
/// takes the one the response holds, if any.
pub fn token_from_response(body: &str, now: UtcTime, kept_refresh: Option<&str>) -> (r: Result<Token, TokenResponseError>)
    ensures
        match json_text_field(body@, "access_token"@) {
            None => r == Err::<Token, TokenResponseError>(TokenResponseError::NotJson),
            Some(None) => r == Err::<Token, TokenResponseError>(TokenResponseError::MissingAccessToken),
            Some(Some(access)) => match json_text_field(body@, "token_type"@) {
                Some(Some(tt)) => match json_u64_value(body@, "expires_in"@) {
                    Some(Some(e)) => if e <= MAX_EXPIRES_IN && now.secs + e <= i64::MAX {
                        r matches Ok(t) && t.access_token@ == access && t.token_type@ == tt
                            && t.expires_at == (UtcTime { secs: (now.secs + e) as i64, nanos: now.nanos })
                            && match kept_refresh {
                            Some(k) => t.refresh_token matches Some(x) && x@ == k@,
                            None => match json_text_field(body@, "refresh_token"@) {
                                Some(Some(x)) => t.refresh_token matches Some(y) && y@ == x,
                                _ => t.refresh_token is None,
                            },
                        }
                    } else {
                        r == Err::<Token, TokenResponseError>(TokenResponseError::ExpiryOutOfRange)
                    },
                    _ => r == Err::<Token, TokenResponseError>(TokenResponseError::MissingExpiresIn),
                },
                _ => r == Err::<Token, TokenResponseError>(TokenResponseError::MissingTokenType),
            },
        },
{
    let access = match json_str_field(body, "access_token") {
        None => return Err(TokenResponseError::NotJson),
        Some(None) => return Err(TokenResponseError::MissingAccessToken),
        Some(Some(a)) => a,
    };
    let token_type = match json_str_field(body, "token_type") {
        Some(Some(t)) => t,
        _ => return Err(TokenResponseError::MissingTokenType),
    };
    let expires_in = match json_u64_field(body, "expires_in") {
        Some(Some(e)) => e,
        _ => return Err(TokenResponseError::MissingExpiresIn),
    };
    if expires_in > MAX_EXPIRES_IN || now.secs > i64::MAX - (expires_in as i64) {
        return Err(TokenResponseError::ExpiryOutOfRange);
    }
    let refresh_token = match kept_refresh {
        Some(k) => Some(String::from_str(k)),
        None => match json_str_field(body, "refresh_token") {
            Some(Some(x)) => Some(x),
            _ => None,
        },
    };
    Ok(
        Token {
            access_token: access,
            refresh_token,
            expires_at: UtcTime { secs: now.secs + (expires_in as i64), nanos: now.nanos },
            token_type,
        },
    )
}

/// Why the browser's redirect carried no code.
#[derive(Debug, PartialEq, Eq, Structural)]
pub enum RedirectError {
    EmptyRequest,
    MalformedRequestLine,
    NoCode,
}

impl RedirectError {
    pub fn message(&self) -> (m: &'static str)
        ensures
            *self == RedirectError::EmptyRequest ==> m@ == "empty redirect request"@,
            *self == RedirectError::MalformedRequestLine ==> m@ == "malformed redirect request line"@,
            *self == RedirectError::NoCode ==> m@ == "no code parameter in OAuth redirect"@,
    {
        match self {
            RedirectError::EmptyRequest => "empty redirect request",
            RedirectError::MalformedRequestLine => "malformed redirect request line",
            RedirectError::NoCode => "no code parameter in OAuth redirect",
        }
    }
}

/// The first line of a text, as `str::lines` gives it: up to the first `\n`,
/// without a `\r` just before it; nothing for an empty text.
pub open spec fn spec_first_line(s: Seq<char>) -> Option<Seq<char>> {
    if s.len() == 0 {
        None
    } else {
        match spec_find(s, '\n') {
            Some(e) => {
                let line = s.subrange(0, e);
                if line.len() > 0 && line.last() == '\r' {
                    Some(line.drop_last())
                } else {
                    Some(line)
                }
            },
            None => Some(s),
        }
    }
}

/// The first position from `i` on that holds no whitespace (or the end).
pub open spec fn spec_skip_ws(s: Seq<char>, i: int) -> int
    decreases s.len() - i,
{
    if i < 0 || i >= s.len() || !spec_is_whitespace(s[i]) {
        i
    } else {
        spec_skip_ws(s, i + 1)
    }
}

/// The first position from `i` on that holds whitespace (or the end).
pub open spec fn spec_word_end(s: Seq<char>, i: int) -> int
    decreases s.len() - i,
{
    if i < 0 || i >= s.len() || spec_is_whitespace(s[i]) {
        i
    } else {
        spec_word_end(s, i + 1)
    }
}

/// The second whitespace-separated word of `s`, as `split_whitespace().nth(1)`.
pub open spec fn spec_second_word(s: Seq<char>) -> Option<Seq<char>> {
    let a = spec_skip_ws(s, 0);
    if a >= s.len() {
        None
    } else {
        let b = spec_skip_ws(s, spec_word_end(s, a));
        if b >= s.len() {
            None
        } else {
            Some(s.subrange(b, spec_word_end(s, b)))
        }
    }
}

/// The code the browser's redirect request carries: the `code` parameter of the
/// path on its first line.
pub open spec fn spec_redirect_code(request: Seq<char>) -> Result<Seq<char>, RedirectError> {
    match spec_first_line(request) {
        None => Err(RedirectError::EmptyRequest),
        Some(line) => match spec_second_word(line) {
            None => Err(RedirectError::MalformedRequestLine),
            Some(path) => match spec_query_param(path, "code"@) {
                None => Err(RedirectError::NoCode),
                Some(c) => Ok(c),
            },
        },
    }
}

proof fn lemma_skip_bounds(s: Seq<char>, i: int)
    requires
        0 <= i <= s.len(),
    ensures
        i <= spec_skip_ws(s, i) <= s.len(),
    decreases s.len() - i,
{
    if i < s.len() && spec_is_whitespace(s[i]) {
        lemma_skip_bounds(s, i + 1);
    }
}

proof fn lemma_word_end_bounds(s: Seq<char>, i: int)
    requires
        0 <= i <= s.len(),
    ensures
        i <= spec_word_end(s, i) <= s.len(),
    decreases s.len() - i,
{
    if i < s.len() && !spec_is_whitespace(s[i]) {
        lemma_word_end_bounds(s, i + 1);
    }
}

fn skip_ws(v: &Vec<char>, from: usize) -> (r: usize)
    requires
        from <= v.len(),
    ensures
        r as int == spec_skip_ws(v@, from as int),
        from <= r <= v.len(),
{
    let mut i = from;
    while i < v.len() && is_whitespace(v[i])
        invariant
            from <= i <= v.len(),
            spec_skip_ws(v@, from as int) == spec_skip_ws(v@, i as int),
        decreases v.len() - i,
    {
        i = i + 1;
    }
    i
}

fn word_end(v: &Vec<char>, from: usize) -> (r: usize)
    requires
        from <= v.len(),
    ensures
        r as int == spec_word_end(v@, from as int),
        from <= r <= v.len(),
{
    let mut i = from;
    while i < v.len() && !is_whitespace(v[i])
        invariant
            from <= i <= v.len(),
            spec_word_end(v@, from as int) == spec_word_end(v@, i as int),
        decreases v.len() - i,
    {
        i = i + 1;
    }
    i
}

fn slice_chars(v: &Vec<char>, from: usize, to: usize) -> (r: Vec<char>)
    requires
        from <= to <= v.len(),
    ensures
        r@ == v@.subrange(from as int, to as int),
{
    let mut r: Vec<char> = Vec::new();
    let mut i = from;
    while i < to
        invariant
            from <= i <= to <= v.len(),
            r@ == v@.subrange(from as int, i as int),
        decreases to - i,
    {
        r.push(v[i]);
        i = i + 1;
        assert(r@ =~= v@.subrange(from as int, i as int));
    }
    r
}

fn first_line(v: &Vec<char>) -> (r: Option<Vec<char>>)
    ensures
        match r {
            Some(l) => spec_first_line(v@) == Some(l@),
            None => spec_first_line(v@).is_none(),
        },
{
    if v.len() == 0 {
        return None;
    }
    let mut e: usize = 0;
    while e < v.len() && v[e] != '\n'
        invariant
            e <= v.len(),
            forall|j: int| 0 <= j < e ==> v@[j] != '\n',
        decreases v.len() - e,
    {
        e = e + 1;
    }
    if e == v.len() {
        proof {
            lemma_find_none(v@, '\n');
        }
        return Some(slice_chars(v, 0, v.len()));
    }
    proof {
        lemma_find_is_first(v@, '\n', e as int);
    }
    if e > 0 && v[e - 1] == '\r' {
        let l = slice_chars(v, 0, e - 1);
        assert(l@ =~= v@.subrange(0, e as int).drop_last());
        Some(l)
    } else {
        Some(slice_chars(v, 0, e))
    }
}

/// The code of the browser's redirect, read from the request it sent.
pub fn redirect_code_from_request(request: &str) -> (r: Result<String, RedirectError>)
    ensures
        match r {
            Ok(c) => spec_redirect_code(request@) == Ok::<Seq<char>, RedirectError>(c@),
            Err(e) => spec_redirect_code(request@) == Err::<Seq<char>, RedirectError>(e),
        },
{
    let v = chars_of(request);
    let line = match first_line(&v) {
        None => return Err(RedirectError::EmptyRequest),
        Some(l) => l,
    };
    let a = skip_ws(&line, 0);
    if a >= line.len() {
        return Err(RedirectError::MalformedRequestLine);
    }
    let b = skip_ws(&line, word_end(&line, a));
    if b >= line.len() {
        return Err(RedirectError::MalformedRequestLine);
    }
    let path_chars = slice_chars(&line, b, word_end(&line, b));
    let path = string_of(&path_chars);
    proof {
        reveal_strlit("code");
    }
    match extract_query_param(path.as_str(), "code") {
        None => Err(RedirectError::NoCode),
        Some(c) => Ok(c),
    }
}

/// A pasted authorisation code was empty.
#[derive(Debug, PartialEq, Eq)]
pub struct EmptyCode;

impl EmptyCode {
    pub fn message(&self) -> (m: &'static str)
        ensures
            m@ == "authorization code cannot be empty"@,
    {
        "authorization code cannot be empty"
    }
}

/// The code in a line the user pasted: the line trimmed, and the `code`
/// parameter taken out of it when it is a redirect URL.
pub fn code_from_pasted_line(line: &str) -> (r: Result<String, EmptyCode>)
    ensures
        match r {
            Ok(c) => c@ == spec_code_from_input(spec_trim(line@)) && c@.len() > 0,
            Err(_) => spec_code_from_input(spec_trim(line@)).len() == 0,
        },
{
    let chars = chars_of(line);
    let trimmed = string_of(&trim_chars(&chars));
    let code = extract_code_from_input(trimmed.as_str());
    if code.unicode_len() == 0 {
        Err(EmptyCode)
    } else {
        Ok(code)
    }
}

/// The first step towards a usable access token.
#[derive(Debug, PartialEq, Eq)]
pub enum TokenStep {
    /// The cached token is still good.
    UseCached,
    /// Trade this refresh token for a new token; sign in when that fails.
    Refresh(String),
    /// Sign in through the browser.
    Authenticate,
}

/// With the cached token (if any) at `now`: a token that does not expire within
/// the next minute is used; else its refresh token, if it has one, is tried;
/// else the user signs in.
pub fn token_step(cached: &Option<Token>, now: UtcTime) -> (s: TokenStep)
    ensures
        match cached {
            None => s == TokenStep::Authenticate,
            Some(t) => if !spec_at_or_before_plus(t.expires_at, now, 60) {
                s == TokenStep::UseCached
            } else {
                match t.refresh_token {
                    Some(r) => s matches TokenStep::Refresh(x) && x@ == r@,
                    None => s == TokenStep::Authenticate,
                }
            },
        },
{
    match cached {
        None => TokenStep::Authenticate,
        Some(t) => {
            if !t.is_expired_at(now) {
                TokenStep::UseCached
            } else {
                match &t.refresh_token {
                    Some(r) => TokenStep::Refresh(r.clone()),
                    None => TokenStep::Authenticate,
                }
            }
        },
    }
}

} // verus!
