use reflections::oauth::calendar_events_url;
use reflections::time::{db_timestamp, rfc3339_timestamp};
use reflections::oauth::{
    authorization_header, build_auth_url, events_url, exchange_form_body, extract_code_from_input,
    extract_query_param, refresh_form_body, Credentials, MissingCredentials, Token, REDIRECT_URI,
};
use reflections::time::UtcTime;

fn now_plus(secs: i64) -> UtcTime {
    let now = chrono::Utc::now();
    UtcTime { secs: now.timestamp() + secs, nanos: now.timestamp_subsec_nanos() }
}

fn token_expiring_at(expires_at: UtcTime) -> Token {
    Token {
        access_token: "test".to_string(),
        refresh_token: None,
        expires_at,
        token_type: "Bearer".to_string(),
    }
}

#[test]
fn token_not_expired_when_future() {
    let token = token_expiring_at(now_plus(3600));
    assert!(!token.is_expired());
}

#[test]
fn token_expired_when_past() {
    let token = token_expiring_at(now_plus(-3600));
    assert!(token.is_expired());
}

#[test]
fn token_expired_when_within_60_seconds() {
    let token = token_expiring_at(now_plus(30));
    assert!(token.is_expired());
}

#[test]
fn token_expiry_boundary_is_sixty_seconds() {
    let now = UtcTime { secs: 1_000, nanos: 500 };
    assert!(token_expiring_at(UtcTime { secs: 1_060, nanos: 500 }).is_expired_at(now));
    assert!(!token_expiring_at(UtcTime { secs: 1_060, nanos: 501 }).is_expired_at(now));
    assert!(!token_expiring_at(UtcTime { secs: 1_061, nanos: 0 }).is_expired_at(now));
    assert!(token_expiring_at(UtcTime { secs: 1_059, nanos: 999_999_999 }).is_expired_at(now));
}

#[test]
fn extract_code_from_raw_code() {
    let result = extract_code_from_input("4/0AxKBa-xyz123");
    assert_eq!(result, "4/0AxKBa-xyz123");
}

#[test]
fn extract_code_from_redirect_url() {
    let url = "http://localhost:8080/?code=4/0AxKBa-xyz123&scope=https://www.googleapis.com/auth/calendar.readonly";
    let result = extract_code_from_input(url);
    assert_eq!(result, "4/0AxKBa-xyz123");
}

#[test]
fn extract_code_from_url_without_code_param() {
    let url = "http://localhost:8080/?error=access_denied";
    let result = extract_code_from_input(url);
    assert_eq!(result, url);
}

#[test]
fn extract_code_keeps_input_that_is_not_a_url() {
    assert_eq!(extract_code_from_input("code=abc"), "code=abc");
    assert_eq!(extract_code_from_input("https://x/?code=abc"), "abc");
}

#[test]
fn extract_query_param_finds_code() {
    let path = "/?code=4/0AxKBa-xyz&scope=foo";
    let result = extract_query_param(path, "code");
    assert_eq!(result, Some("4/0AxKBa-xyz".to_string()));
}

#[test]
fn extract_query_param_returns_none_when_missing() {
    let path = "/?error=access_denied";
    let result = extract_query_param(path, "code");
    assert_eq!(result, None);
}

#[test]
fn extract_query_param_returns_none_without_query_string() {
    let path = "/";
    let result = extract_query_param(path, "code");
    assert_eq!(result, None);
}

#[test]
fn extract_query_param_takes_later_pairs_and_empty_values() {
    assert_eq!(extract_query_param("/?a=1&code=xyz", "code"), Some("xyz".to_string()));
    assert_eq!(extract_query_param("/?code=", "code"), Some(String::new()));
    assert_eq!(extract_query_param("/?scode=1", "code"), None);
}

#[test]
fn credentials_need_both_values() {
    let c = Credentials::from_env(Some("id"), Some("secret")).unwrap();
    assert_eq!(c.client_id, "id");
    assert_eq!(c.client_secret, "secret");
    assert_eq!(Credentials::from_env(None, Some("secret")).err(), Some(MissingCredentials));
    assert_eq!(Credentials::from_env(Some("id"), None).err(), Some(MissingCredentials));
    assert_eq!(
        MissingCredentials.message(),
        "binary was built without Google credentials \u{2014} sync unavailable"
    );
}

#[test]
fn auth_url_percent_encodes_its_parts() {
    let url = build_auth_url("my id/1");
    assert_eq!(
        url,
        "https://accounts.google.com/o/oauth2/v2/auth?client_id=my%20id%2F1\
&redirect_uri=http%3A%2F%2Flocalhost%3A8080\
&scope=https%3A%2F%2Fwww.googleapis.com%2Fauth%2Fcalendar.readonly\
&access_type=offline&prompt=consent&response_type=code"
    );
}

#[test]
fn form_bodies_encode_each_value() {
    assert_eq!(
        refresh_form_body("r/t", "id", "s&s"),
        "refresh_token=r%2Ft&client_id=id&client_secret=s%26s&grant_type=refresh_token"
    );
    assert_eq!(
        exchange_form_body("4/0A", "id", "sec", REDIRECT_URI),
        "code=4%2F0A&client_id=id&client_secret=sec&redirect_uri=http%3A%2F%2Flocalhost%3A8080&grant_type=authorization_code"
    );
}

#[test]
fn events_url_encodes_the_range() {
    assert_eq!(
        events_url("2024-01-01T00:00:00+00:00", "2024-01-02T00:00:00+00:00"),
        "https://www.googleapis.com/calendar/v3/calendars/primary/events\
?timeMin=2024-01-01T00%3A00%3A00%2B00%3A00&timeMax=2024-01-02T00%3A00%3A00%2B00%3A00\
&singleEvents=true&orderBy=startTime"
    );
}

#[test]
fn authorization_header_joins_type_and_token() {
    let t = Token {
        access_token: "abc".to_string(),
        refresh_token: Some("r".to_string()),
        expires_at: UtcTime { secs: 0, nanos: 0 },
        token_type: "Bearer".to_string(),
    };
    assert_eq!(authorization_header(&t), "Bearer abc");
}

#[test]
fn calendar_events_url_writes_the_range_in_rfc3339() {
    let start = UtcTime { secs: 1_704_067_200, nanos: 0 };
    let end = UtcTime { secs: 1_704_153_600, nanos: 0 };
    assert_eq!(
        calendar_events_url(start, end),
        Some(events_url("2024-01-01T00:00:00+00:00", "2024-01-02T00:00:00+00:00"))
    );
    assert_eq!(rfc3339_timestamp(start).as_deref(), Some("2024-01-01T00:00:00+00:00"));
    assert_eq!(db_timestamp(end).as_deref(), Some("2024-01-02 00:00:00"));
    assert_eq!(calendar_events_url(UtcTime { secs: i64::MAX, nanos: 0 }, end), None);
}
