use reflections::google::{
    calendar_events, code_from_pasted_line, redirect_code_from_request, token_from_response, token_step,
    EmptyCode, GoogleEvent, GoogleEventTime, RedirectError, TokenResponseError, TokenStep,
};
use reflections::oauth::Token;
use reflections::time::UtcTime;

fn item(summary: Option<&str>, start: Option<Option<&str>>) -> GoogleEvent {
    GoogleEvent {
        summary: summary.map(String::from),
        start: start.map(|d| GoogleEventTime { date_time: d.map(String::from) }),
    }
}

#[test]
fn calendar_events_keep_titled_timed_events() {
    let items = vec![
        item(Some("Standup"), Some(Some("2026-01-05T09:00:00+01:00"))),
        item(Some(""), Some(Some("2026-01-05T10:00:00Z"))),
        item(None, Some(Some("2026-01-05T10:00:00Z"))),
        item(Some("Holiday"), Some(None)),
        item(Some("No start"), None),
        item(Some("Bad time"), Some(Some("tomorrow"))),
        item(Some("Retro"), Some(Some("2026-01-05T15:30:00Z"))),
    ];
    let events = calendar_events(&items);
    assert_eq!(events.len(), 2);
    assert_eq!(events[0].name, "Standup");
    assert_eq!(events[0].scheduled_at, UtcTime { secs: 1_767_600_000, nanos: 0 });
    assert_eq!(events[1].name, "Retro");
    assert_eq!(events[1].scheduled_at, UtcTime { secs: 1_767_627_000, nanos: 0 });
}

#[test]
fn refresh_response_keeps_the_refresh_token() {
    let now = UtcTime { secs: 1_000, nanos: 7 };
    let t = token_from_response(
        r#"{"access_token":"abc","token_type":"Bearer","expires_in":3599,"refresh_token":"new"}"#,
        now,
        Some("old"),
    )
    .expect("token");
    assert_eq!(t.access_token, "abc");
    assert_eq!(t.token_type, "Bearer");
    assert_eq!(t.refresh_token.as_deref(), Some("old"));
    assert_eq!(t.expires_at, UtcTime { secs: 4_599, nanos: 7 });
}

#[test]
fn exchange_response_takes_the_refresh_token_it_holds() {
    let now = UtcTime { secs: 0, nanos: 0 };
    let with = token_from_response(
        r#"{"access_token":"a","token_type":"Bearer","expires_in":10,"refresh_token":"r"}"#,
        now,
        None,
    )
    .expect("token");
    assert_eq!(with.refresh_token.as_deref(), Some("r"));
    let without = token_from_response(r#"{"access_token":"a","token_type":"Bearer","expires_in":10}"#, now, None)
        .expect("token");
    assert_eq!(without.refresh_token, None);
}

#[test]
fn token_responses_name_what_is_missing() {
    let now = UtcTime { secs: 0, nanos: 0 };
    let err = |body: &str| token_from_response(body, now, None).err();
    assert_eq!(err("<html>"), Some(TokenResponseError::NotJson));
    assert_eq!(err(r#"{"token_type":"Bearer","expires_in":1}"#), Some(TokenResponseError::MissingAccessToken));
    assert_eq!(err(r#"{"access_token":"a","expires_in":1}"#), Some(TokenResponseError::MissingTokenType));
    assert_eq!(err(r#"{"access_token":"a","token_type":"B","expires_in":"1"}"#), Some(TokenResponseError::MissingExpiresIn));
    assert_eq!(
        err(r#"{"access_token":"a","token_type":"B","expires_in":18446744073709551615}"#),
        Some(TokenResponseError::ExpiryOutOfRange)
    );
    assert_eq!(TokenResponseError::MissingAccessToken.message(true), "missing access_token in refresh response");
    assert_eq!(TokenResponseError::MissingAccessToken.message(false), "missing access_token in response");
    assert_eq!(TokenResponseError::NotJson.message(false), "failed to parse token exchange response");
}

#[test]
fn redirect_request_yields_the_code() {
    let req = "GET /?code=4/0AxKBa-test123&scope=calendar HTTP/1.1\r\nHost: localhost\r\n\r\n";
    assert_eq!(redirect_code_from_request(req), Ok("4/0AxKBa-test123".to_string()));
}

#[test]
fn redirect_request_errors() {
    assert_eq!(
        redirect_code_from_request("GET /?error=access_denied HTTP/1.1\r\nHost: localhost\r\n\r\n"),
        Err(RedirectError::NoCode)
    );
    assert_eq!(redirect_code_from_request(""), Err(RedirectError::EmptyRequest));
    assert_eq!(redirect_code_from_request("GET\r\n"), Err(RedirectError::MalformedRequestLine));
    assert_eq!(redirect_code_from_request("\nGET /?code=x HTTP/1.1"), Err(RedirectError::MalformedRequestLine));
    assert_eq!(RedirectError::NoCode.message(), "no code parameter in OAuth redirect");
}

#[test]
fn pasted_lines_are_trimmed_and_read_as_codes() {
    assert_eq!(code_from_pasted_line("  4/0Ax-code \n"), Ok("4/0Ax-code".to_string()));
    assert_eq!(
        code_from_pasted_line("http://localhost:8080/?code=abc&scope=x\n"),
        Ok("abc".to_string())
    );
    assert_eq!(code_from_pasted_line("   \n"), Err(EmptyCode));
    assert_eq!(EmptyCode.message(), "authorization code cannot be empty");
}

#[test]
fn token_step_prefers_the_cache_then_refresh() {
    let now = UtcTime { secs: 1_000, nanos: 0 };
    let token = |expires: i64, refresh: Option<&str>| Token {
        access_token: "a".to_string(),
        refresh_token: refresh.map(String::from),
        expires_at: UtcTime { secs: expires, nanos: 0 },
        token_type: "Bearer".to_string(),
    };
    assert_eq!(token_step(&None, now), TokenStep::Authenticate);
    assert_eq!(token_step(&Some(token(2_000, None)), now), TokenStep::UseCached);
    assert_eq!(token_step(&Some(token(1_030, Some("r"))), now), TokenStep::Refresh("r".to_string()));
    assert_eq!(token_step(&Some(token(1_030, None)), now), TokenStep::Authenticate);
}
