use base64::Engine;
use codexbar::codex_accounts::api::{
    account_id_from_id_token, check_usage_reply, error_code_in, extract_error_code, fetch_start,
    fetch_step, identity_from_credentials, is_equivalent, is_unauthorized, jwt_payload,
    load_credentials, load_identity, make_credits, make_normalized_windows,
    normalize_window_roles, parse_chatgpt_base_url, parse_credentials_json, refresh_failure,
    refresh_reply, refresh_request, refreshed_credentials, resolve_usage_url, save_credentials, usage_failure,
    usage_reply, usage_request_headers, usage_snapshot, verified_step, AuthCredentials, CodexApiError,
    FetchCommand, FetchEvent, FetchStage, FileRead, Reply, VerifiedRead, VerifiedStep,
};
use codexbar::codex_accounts::models::{
    parse_datetime, utc_now, AccountUsageSnapshot, UsageWindowSnapshot,
};
use codexbar::json::{read_json, Json, JsonObject};
use codexbar::moment::Moment;
use codexbar::quantity::Quantity;

fn q(v: f64) -> Quantity {
    Quantity::from_double_bits(v.to_bits()).unwrap()
}

fn object(text: &str) -> JsonObject {
    match read_json(text) {
        Ok(Json::Object(o)) => o,
        _ => panic!("no object"),
    }
}

fn token(claims: &str) -> String {
    let payload = base64::engine::general_purpose::URL_SAFE_NO_PAD.encode(claims.as_bytes());
    format!("h.{payload}.s")
}

fn credentials() -> AuthCredentials {
    AuthCredentials {
        access_token: "at".into(),
        refresh_token: "rt".into(),
        id_token: None,
        account_id: Some("42".into()),
        last_refresh: None,
    }
}

#[test]
fn parse_credentials_accepts_api_key() {
    let creds = parse_credentials_json(r#"{"OPENAI_API_KEY":"sk-test"}"#).unwrap();
    assert_eq!(creds.access_token, "sk-test");
    assert_eq!(creds.account_id, None);
}

#[test]
fn parse_credentials_accepts_tokens() {
    let creds = parse_credentials_json(
        r#"{"tokens":{"access_token":"at","refresh_token":"rt","account_id":"42"},"last_refresh":"2026-01-01T00:00:00Z"}"#,
    )
    .unwrap();
    assert_eq!(creds.access_token, "at");
    assert_eq!(creds.refresh_token, "rt");
    assert_eq!(creds.account_id.as_deref(), Some("42"));
    assert_eq!(creds.last_refresh, parse_datetime("2026-01-01T00:00:00Z"));
}

#[test]
fn parse_credentials_missing_tokens_errors() {
    assert!(parse_credentials_json(r#"{"foo":1}"#).is_err());
}

#[test]
fn jwt_payload_decodes() {
    let payload = base64::engine::general_purpose::URL_SAFE_NO_PAD.encode(br#"{"email":"a@b.c"}"#);
    let token = format!("eyJhbGciOiJub25lIn0.{payload}.");
    let parsed = jwt_payload(&token).unwrap();
    assert_eq!(parsed.get("email").and_then(|v| v.text()), Some("a@b.c"));
}

#[test]
fn normalize_window_roles_orders_session_first() {
    let weekly = UsageWindowSnapshot::new(q(10.0), None, 604_800);
    let session = UsageWindowSnapshot::new(q(10.0), None, 18_000);
    let (p, s) = normalize_window_roles(Some(weekly), Some(session));
    assert_eq!(p.unwrap().limit_window_seconds, 18_000);
    assert_eq!(s.unwrap().limit_window_seconds, 604_800);
}

#[test]
fn limit_reached_forces_100() {
    let payload = object(
        r#"{"allowed":true,"limit_reached":true,"primary_window":{"used_percent":40,"reset_at":0,"limit_window_seconds":18000},"secondary_window":{"used_percent":20,"reset_at":0,"limit_window_seconds":604800}}"#,
    );
    let (p, s) = make_normalized_windows(Some(&payload));
    assert_eq!(p.as_ref().unwrap().used_percent, q(100.0));
    assert_eq!(s.as_ref().unwrap().used_percent, q(100.0));
}

#[test]
fn resolve_usage_url_default() {
    let url = resolve_usage_url(None);
    assert_eq!(url, "https://chatgpt.com/backend-api/wham/usage");
}

#[test]
fn parse_chatgpt_base_url_parses_quoted() {
    let url = parse_chatgpt_base_url(
        "# comment\nchatgpt_base_url = \"https://example.com/backend-api\"\n",
    )
    .unwrap();
    assert_eq!(url, "https://example.com/backend-api");
}

#[test]
fn session_goes_first_and_week_second() {
    let window = |seconds| Some(UsageWindowSnapshot::new(q(10.0), None, seconds));
    let order = |a, b| {
        let (p, s) = normalize_window_roles(window(a), window(b));
        (p.unwrap().limit_window_seconds, s.unwrap().limit_window_seconds)
    };
    assert_eq!(order(1234, 18_000), (18_000, 1234));
    assert_eq!(order(2_592_000, 18_000), (18_000, 2_592_000));
    assert_eq!(order(18_000, 1234), (18_000, 1234));
    assert_eq!(order(604_800, 1234), (1234, 604_800));
    assert_eq!(order(604_800, 2_592_000), (2_592_000, 604_800));
    assert_eq!(order(1234, 2_592_000), (1234, 2_592_000));
}

#[test]
fn base_url_is_found_behind_lines_that_assign_nothing() {
    let parse = |text: &str| parse_chatgpt_base_url(text);
    assert_eq!(
        parse("notify = [\n  \"a\",\n]\nchatgpt_base_url = \"https://example.com\"\n"),
        Some("https://example.com".to_string())
    );
    assert_eq!(
        parse("x = [\n  [\"]\"]\n]\nchatgpt_base_url = 'https://example.com'"),
        Some("https://example.com".to_string())
    );
    assert_eq!(
        parse("x = \"\"\"\nword\n\"\"\"\nchatgpt_base_url = plain"),
        Some("plain".to_string())
    );
    assert_eq!(parse("word\nchatgpt_base_url = plain"), None);
    assert_eq!(parse("a=[\nword\nchatgpt_base_url=x"), None);
    assert_eq!(parse("a=[\nchatgpt_base_url=x"), Some("x".to_string()));
    assert_eq!(parse("a=[\"#\"]\n[t]\nchatgpt_base_url=x"), None);
    assert_eq!(parse("a=[ # ]\n'b', ]\nchatgpt_base_url=x"), Some("x".to_string()));
    assert_eq!(parse("[profiles.a]\nchatgpt_base_url = \"https://example.com\""), None);
    assert_eq!(parse("model = \"x\""), None);
}

fn usage(plan: &str, now: Moment) -> AccountUsageSnapshot {
    AccountUsageSnapshot {
        email: Some("a@b.c".to_string()),
        provider_account_id: Some("x".to_string()),
        plan: Some(plan.to_string()),
        allowed: Some(true),
        limit_reached: None,
        primary_window: Some(UsageWindowSnapshot::new(q(12.0), Some(now), 18_000)),
        secondary_window: None,
        credits: None,
        updated_at: now,
    }
}

#[test]
fn equivalent_snapshots_match() {
    let mk = || usage("pro", utc_now());
    assert!(is_equivalent(&mk(), &mk()));
    let mut different = mk();
    different.plan = Some("plus".to_string());
    assert!(!is_equivalent(&mk(), &different));
}

#[test]
fn account_id_from_id_token_reads_auth() {
    let token = token(r#"{"https://api.openai.com/auth":{"chatgpt_account_id":"acct-99"}}"#);
    assert_eq!(
        account_id_from_id_token(Some(&token)).as_deref(),
        Some("acct-99")
    );
}

#[test]
fn an_identity_is_read_from_the_id_token() {
    let mut creds = credentials();
    creds.id_token = Some(token(
        r#"{"email":"a@b.c","sub":"auth0|7","https://api.openai.com/auth":{"chatgpt_plan_type":"team","chatgpt_account_id":"acct-99"}}"#,
    ));
    let identity = identity_from_credentials(&creds);
    assert_eq!(identity.email.as_deref(), Some("a@b.c"));
    assert_eq!(identity.auth_subject.as_deref(), Some("auth0|7"));
    assert_eq!(identity.plan.as_deref(), Some("team"));
    assert_eq!(identity.provider_account_id.as_deref(), Some("42"));
}

#[test]
fn missing_and_unreadable_files_are_told_apart() {
    assert!(load_credentials(&FileRead::NotFound).is_err());
    assert!(load_identity(&FileRead::Failed("denied".into())).is_err());
    let good = FileRead::Contents(r#"{"OPENAI_API_KEY":"sk-test"}"#.into());
    assert_eq!(load_credentials(&good).unwrap().access_token, "sk-test");
}

#[test]
fn saved_credentials_come_back() {
    let now = parse_datetime("2026-02-03T04:05:06Z").unwrap();
    let mut creds = credentials();
    creds.last_refresh = Some(now);
    let text = save_credentials(Some(r#"{"other":{"kept":true}}"#), &creds, now);
    let back = parse_credentials_json(&text).unwrap();
    assert_eq!(back.access_token, "at");
    assert_eq!(back.refresh_token, "rt");
    assert_eq!(back.account_id.as_deref(), Some("42"));
    let kept = object(&text);
    assert_eq!(kept.object("other").unwrap().get("kept").unwrap().truth(), Some(true));
}

#[test]
fn a_refresh_needs_a_refresh_token() {
    let request = refresh_request(&credentials()).unwrap();
    assert_eq!(request.text_at("refresh_token"), Some("rt"));
    assert_eq!(request.text_at("grant_type"), Some("refresh_token"));
    let mut none = credentials();
    none.refresh_token = String::new();
    assert!(refresh_request(&none).is_err());
}

#[test]
fn refresh_failures_are_recognized() {
    assert_eq!(extract_error_code(r#"{"error":{"code":"refresh_token_expired"}}"#), "refresh_token_expired");
    assert_eq!(error_code_in(&read_json(r#"{"error":"plain"}"#).unwrap()), "plain");
    assert!(refresh_failure(200, "{}").is_none());
    assert!(refresh_failure(401, r#"{"error":{"code":"refresh_token_expired"}}"#).is_some());
    assert!(refresh_failure(500, "").is_some());
}

#[test]
fn a_refresh_keeps_the_account() {
    let now = parse_datetime("2026-02-03T04:05:06Z").unwrap();
    let reply = read_json(r#"{"access_token":"new","id_token":"x.y.z"}"#).unwrap();
    let fresh = refreshed_credentials(&credentials(), &reply, now).unwrap();
    assert_eq!(fresh.access_token, "new");
    assert_eq!(fresh.refresh_token, "rt");
    assert_eq!(fresh.account_id.as_deref(), Some("42"));
    assert_eq!(fresh.last_refresh, Some(now));
}

#[test]
fn usage_requests_name_the_account() {
    let headers = usage_request_headers("secret", Some("42"));
    assert!(headers.iter().any(|(k, v)| k == "Authorization" && v == "Bearer secret"));
    assert!(headers.iter().any(|(k, v)| k == "ChatGPT-Account-Id" && v == "42"));
    assert_eq!(usage_request_headers("secret", None).len() + 1, headers.len());
}

fn reply(status: u16, status_text: &str, body: &str) -> Reply {
    let success = (200..300).contains(&status);
    Reply {
        status,
        status_text: status_text.into(),
        bytes: if success { body.as_bytes().to_vec() } else { vec![] },
        text: if success { String::new() } else { body.into() },
    }
}

#[test]
fn whole_refresh_replies_are_taken_in() {
    let now = parse_datetime("2027-01-15T08:00:00Z").unwrap();
    let fresh =
        refresh_reply(&credentials(), &reply(200, "", r#"{"access_token":"new","x":0.5}"#), now).unwrap();
    assert_eq!(fresh.access_token, "new");
    assert_eq!(fresh.refresh_token, credentials().refresh_token);
    assert_eq!(fresh.last_refresh, Some(now));
    assert!(matches!(
        refresh_reply(&credentials(), &reply(200, "", "[]"), now),
        Err(CodexApiError::Message(_))
    ));
    assert!(matches!(
        refresh_reply(&credentials(), &reply(200, "", "{"), now),
        Err(CodexApiError::Parse(m)) if m == "error decoding response body"
    ));
    assert!(matches!(
        refresh_reply(
            &credentials(),
            &reply(401, "", r#"{"error":{"code":"Refresh_Token_Reused"}}"#),
            now
        ),
        Err(CodexApiError::Message(m)) if m.contains("can no longer be reused")
    ));
}

#[test]
fn whole_usage_replies_are_taken_in() {
    let now = parse_datetime("2027-01-15T08:00:00Z").unwrap();
    let body = r#"{"plan_type":"pro","rate_limit":{"primary_window":{"used_percent":12.5,"limit_window_seconds":18000}}}"#;
    let s = usage_reply(&credentials(), None, &reply(200, "200 OK", body), now).unwrap();
    assert_eq!(s.plan.as_deref(), Some("pro"));
    assert_eq!(s.primary_window.unwrap().used_percent, q(12.5));
    assert!(matches!(
        usage_reply(&credentials(), None, &reply(500, "500 Internal Server Error", " down "), now),
        Err(CodexApiError::Message(m)) if m == "Codex API error 500 Internal Server Error: down"
    ));
    assert!(matches!(
        usage_reply(&credentials(), None, &reply(200, "200 OK", "[]"), now),
        Err(CodexApiError::Parse(_))
    ));
    let mut broken = reply(200, "200 OK", "");
    broken.bytes = vec![b'"', 0xff, b'"'];
    assert!(matches!(
        usage_reply(&credentials(), None, &broken, now),
        Err(CodexApiError::Parse(m)) if m == "error decoding response body"
    ));
}

#[test]
fn saved_credentials_are_loaded_beside_doubles() {
    let now = parse_datetime("2026-01-01T00:00:00Z").unwrap();
    let raw = r#"{"weight":0.1,"deep":[1e300,{"x":-0.0}],"tokens":{"access_token":"old"}}"#;
    let mut saved = credentials();
    saved.account_id = Some("acct".to_string());
    let text = save_credentials(Some(raw), &saved, now);
    let loaded = load_credentials(&FileRead::Contents(text.clone())).unwrap();
    assert_eq!(loaded.access_token, saved.access_token);
    assert_eq!(loaded.refresh_token, saved.refresh_token);
    assert_eq!(loaded.account_id, saved.account_id);
    assert_eq!(loaded.last_refresh, Some(now));
    assert!(text.contains("\"weight\": 0.1"));
}

#[test]
fn usage_failures_are_told() {
    assert!(usage_failure(200, "200 OK", "{}").is_none());
    assert!(usage_failure(401, "401 Unauthorized", "").is_some());
    assert!(check_usage_reply(&read_json("{}").unwrap()).is_ok());
    assert!(check_usage_reply(&read_json("[]").unwrap()).is_err());
}

#[test]
fn own_hosts_get_the_backend_path() {
    assert_eq!(
        resolve_usage_url(Some("chatgpt_base_url = \"https://chatgpt.com\"\n")),
        "https://chatgpt.com/backend-api/wham/usage"
    );
    assert_eq!(
        resolve_usage_url(Some("chatgpt_base_url = \"http://127.0.0.1:9\"\n")),
        "http://127.0.0.1:9/api/codex/usage"
    );
}

#[test]
fn credits_are_read() {
    let credits = make_credits(&object(r#"{"has_credits":true,"unlimited":false,"balance":7.25}"#));
    assert_eq!(credits.balance, Some(q(7.25)));
    assert_eq!(credits.display_value(), "7.25");
}

#[test]
fn a_usage_reply_becomes_a_snapshot() {
    let now = parse_datetime("2026-02-03T04:05:06Z").unwrap();
    let reply = read_json(
        r#"{"plan_type":"pro","email":"a@b.c","rate_limit":{"allowed":true,"limit_reached":false,"primary_window":{"used_percent":25,"reset_at":1767225600,"limit_window_seconds":18000}}}"#,
    )
    .unwrap();
    let s = usage_snapshot(&reply, &credentials(), Some("fallback@b.c"), now);
    assert_eq!(s.plan.as_deref(), Some("pro"));
    let window = s.primary_window.unwrap();
    assert_eq!(window.used_percent, q(25.0));
    assert_eq!(window.reset_at, Some(Moment { secs: 1_767_225_600, nanos: 0 }));
    assert_eq!(s.updated_at, now);
}

#[test]
fn two_equal_reads_are_enough() {
    let now = utc_now();
    let VerifiedStep::Read(once) = verified_step(VerifiedRead::Start, Ok(usage("pro", now))) else {
        panic!("one read is not enough")
    };
    match verified_step(once, Ok(usage("pro", now))) {
        VerifiedStep::Done(Ok(s)) => assert_eq!(s.plan.as_deref(), Some("pro")),
        _ => panic!("two equal reads settle it"),
    }
}

#[test]
fn a_fetch_refreshes_at_most_once() {
    let now = utc_now();
    let mut fresh = credentials();
    fresh.last_refresh = Some(now);
    let (stage, command) = fetch_start(&fresh, now);
    assert_eq!((stage, command), (FetchStage::FirstFetch, FetchCommand::Fetch));
    let (stage, command) = fetch_step(stage, FetchEvent::Fetched { unauthorized: true }, true);
    assert_eq!((stage, command), (FetchStage::LateRefresh, FetchCommand::Refresh));
    let (stage, command) = fetch_step(stage, FetchEvent::Refreshed, true);
    assert_eq!((stage, command), (FetchStage::SecondFetch, FetchCommand::SaveAndFetch));
    let (_, command) = fetch_step(stage, FetchEvent::Fetched { unauthorized: true }, true);
    assert_eq!(command, FetchCommand::Finish);
}

#[test]
fn a_refused_token_is_seen_in_the_result() {
    assert!(!is_unauthorized(&Ok(usage("pro", utc_now()))));
    assert!(!is_unauthorized(&Err(CodexApiError::Network("down".into()))));
    let refused = usage_failure(401, "401 Unauthorized", "").unwrap();
    assert!(is_unauthorized(&Err(refused)));
}

#[test]
fn errors_say_where_they_come_from() {
    assert_eq!(CodexApiError::Network("down".into()).to_text(), "network error: down");
    assert_eq!(
        CodexApiError::Parse("bad".into()).to_text(),
        "failed to parse Codex payload: bad"
    );
}

#[test]
fn credentials_are_renewed_after_eight_days() {
    let mut credentials = credentials();
    assert!(credentials.needs_refresh());
    let now = utc_now();
    credentials.last_refresh = Some(now);
    assert!(!credentials.needs_refresh());
    credentials.last_refresh = Some(Moment { secs: now.secs - 9 * 86_400, nanos: 0 });
    assert!(credentials.needs_refresh());
}
