use codexbar::claude::credentials_store::{
    apply_refresh_to_credentials_json, cached_refreshed_if_fresher, credentials_path,
    keyring_account_candidates, load_before_stores, load_from_environment, load_from_file,
    load_from_keyring, load_from_stores, parse_credentials_json, persisted_credentials,
    should_persist, store_refreshed, ClaudeOAuthCredentials, CredentialSource, SourceTable,
};
use codexbar::claude::errors::{AccountError, ProviderError};
use codexbar::claude::oauth::{
    access_token_credentials, active_refresh_backoff, before_usage_request,
    build_usage_snapshot_with_options, clear_account_cache, clear_refresh_backoff, fresh_finish,
    fresh_reread, fresh_start, parse_iso8601_date, rate_limited_error, record_refresh_backoff,
    refresh_cooldown_message, retry_after_duration, stale_credentials_error,
    terminal_refresh_message, to_rate_window, unreadable_usage, usage_refused, FreshStep,
    ExtraUsage, NamedRateWindow, OAuthUsageResponse, RateLimitGate, RateWindow, RefreshBackoffEntry,
    RefreshFailureKind, UsageWindow, DEFAULT_RATE_LIMIT_BACKOFF,
};
use codexbar::claude::tool::Tool;
use codexbar::codex_accounts::api::FileRead;
use codexbar::json::read_json;
use codexbar::moment::Moment;
use codexbar::quantity::Quantity;
use codexbar::snapshot::ProviderId;

const SECOND: u128 = 1_000_000_000;

fn q(v: f64) -> Quantity {
    Quantity::from_double_bits(v.to_bits()).unwrap()
}

fn tool() -> Tool {
    let name = format!("{:?}", ProviderId::Claude);
    let command = name.to_lowercase();
    Tool { name, command }
}

fn at(secs: i64) -> Moment {
    Moment { secs, nanos: 0 }
}

fn credentials(token: &str, refresh: Option<&str>, expires_at: Option<Moment>) -> ClaudeOAuthCredentials {
    ClaudeOAuthCredentials {
        access_token: token.to_string(),
        refresh_token: refresh.map(str::to_string),
        expires_at,
        scopes: vec!["user:profile".to_string()],
        rate_limit_tier: None,
    }
}

fn unique_source(tag: &str) -> CredentialSource {
    CredentialSource::File(format!("f3-refresh-backoff-{tag}.json"))
}

#[test]
fn terminal_refresh_rejection_stays_blocked_until_credential_changes() {
    let mut backoff: SourceTable<RefreshBackoffEntry> = SourceTable::new();
    let source = unique_source("terminal");
    let now = 1_000 * SECOND;
    record_refresh_backoff(
        &mut backoff,
        &source,
        RefreshFailureKind::Terminal,
        now,
        Some("dead-refresh-token"),
    );
    // Terminal gate is indefinite: still blocked far in the future as
    // long as the same refresh token is presented.
    assert_eq!(
        active_refresh_backoff(
            &mut backoff,
            &source,
            now + 3600 * SECOND,
            Some("dead-refresh-token")
        ),
        Some(RefreshFailureKind::Terminal)
    );
    // A different refresh token may be tried.
    assert_eq!(
        active_refresh_backoff(&mut backoff, &source, now, Some("new-refresh-token")),
        None,
        "credential change clears the terminal gate"
    );
    // Re-record with the new token; explicit clear re-allows attempts.
    record_refresh_backoff(
        &mut backoff,
        &source,
        RefreshFailureKind::Terminal,
        now,
        Some("new-refresh-token"),
    );
    clear_refresh_backoff(&mut backoff, &source);
    assert_eq!(
        active_refresh_backoff(&mut backoff, &source, now, Some("new-refresh-token")),
        None,
        "explicit clear re-allows attempts (e.g. after re-login)"
    );
}

#[test]
fn transient_refresh_failure_gets_5min_backoff() {
    let mut backoff: SourceTable<RefreshBackoffEntry> = SourceTable::new();
    let source = unique_source("transient");
    let now = 1_000 * SECOND;
    record_refresh_backoff(&mut backoff, &source, RefreshFailureKind::Transient, now, None);
    assert_eq!(
        active_refresh_backoff(&mut backoff, &source, now + 299 * SECOND, None),
        Some(RefreshFailureKind::Transient)
    );
    assert_eq!(
        active_refresh_backoff(&mut backoff, &source, now + 301 * SECOND, None),
        None
    );
}

#[test]
fn switching_accounts_clears_the_credential_files_transient_cooldown() {
    let mut cache: SourceTable<ClaudeOAuthCredentials> = SourceTable::new();
    let mut backoff: SourceTable<RefreshBackoffEntry> = SourceTable::new();
    let source = unique_source("switch");
    let CredentialSource::File(path) = &source else {
        panic!("file source")
    };
    let now = 1_000 * SECOND;
    record_refresh_backoff(
        &mut backoff,
        &source,
        RefreshFailureKind::Transient,
        now,
        Some("old-token"),
    );
    assert!(active_refresh_backoff(&mut backoff, &source, now, Some("new-token")).is_some());
    clear_account_cache(&mut cache, &mut backoff, path);
    assert!(active_refresh_backoff(&mut backoff, &source, now, Some("new-token")).is_none());
}

#[test]
fn backoff_kinds_have_distinct_user_messages() {
    let login = format!("{} login", tool().command);
    let terminal = terminal_refresh_message(&tool());
    assert!(terminal.contains(&login), "{terminal}");
    assert!(!terminal.contains("retry"), "{terminal}");

    let cooldown = refresh_cooldown_message(&tool());
    assert!(cooldown.contains("retry shortly"), "{cooldown}");
    assert!(cooldown.contains(&login), "{cooldown}");
}

#[test]
fn keeps_sub_one_utilization_in_percent_units() {
    let window = UsageWindow {
        utilization: Some(q(0.23)),
        resets_at: None,
    };
    let rate = to_rate_window(&window, Some(300)).expect("rate window");
    assert_eq!(rate.used_percent, q(0.23));
}

#[test]
fn one_percent_session_is_not_reported_as_full_quota() {
    let window = UsageWindow {
        utilization: Some(q(1.0)),
        resets_at: None,
    };
    let rate = to_rate_window(&window, Some(300)).expect("rate window");
    assert_eq!(rate.used_percent, q(1.0));
}

#[test]
fn preserves_existing_percentage_utilization() {
    let window = UsageWindow {
        utilization: Some(q(23.0)),
        resets_at: None,
    };
    let rate = to_rate_window(&window, Some(300)).expect("rate window");
    assert_eq!(rate.used_percent, q(23.0));
}

fn response() -> OAuthUsageResponse {
    OAuthUsageResponse {
        five_hour: None,
        seven_day: None,
        seven_day_sonnet: None,
        seven_day_opus: None,
        seven_day_design: None,
        seven_day_routines: None,
        extra_usage: None,
    }
}

fn used(v: f64, resets_at: Option<&str>) -> Option<UsageWindow> {
    Some(UsageWindow {
        utilization: Some(q(v)),
        resets_at: resets_at.map(str::to_string),
    })
}

fn limit(v: f64, minutes: u32) -> RateWindow {
    RateWindow {
        used_percent: q(v),
        window_minutes: Some(minutes),
        resets_at: parse_iso8601_date("2026-08-13T12:49:59.578826Z"),
        reset_description: None,
    }
}

fn scoped(v: f64) -> NamedRateWindow {
    NamedRateWindow {
        id: format!("{}-weekly-scoped-fable", tool().command),
        title: "Fable only".to_string(),
        window: limit(v, 10080),
    }
}

#[test]
fn weekly_all_limit_wins_over_stale_seven_day_utilization() {
    let mut body = response();
    body.five_hour = used(8.0, Some("2026-07-20T04:29:59Z"));
    body.seven_day = used(1.0, Some("2026-07-26T22:59:59Z"));
    let usage = build_usage_snapshot_with_options(
        &tool(),
        &body,
        None,
        Some(limit(1.0, 10080)),
        vec![scoped(2.0)],
        None,
        true,
    );
    assert_eq!(usage.primary.used_percent, q(8.0));
    assert_eq!(usage.secondary.expect("weekly").used_percent, q(1.0));
    let prefix = format!("{}-weekly-scoped-", tool().command);
    assert_eq!(
        usage
            .extra_rate_windows
            .iter()
            .filter(|w| w.id.starts_with(&prefix))
            .count(),
        1
    );
}

fn window_of(reply: &serde_json::Value, name: &str) -> Option<UsageWindow> {
    let window = reply.get(name)?;
    Some(UsageWindow {
        utilization: window["utilization"].as_f64().map(q),
        resets_at: window["resets_at"].as_str().map(str::to_string),
    })
}

#[test]
fn parses_current_snake_case_oauth_usage_response() {
    let reply: serde_json::Value = serde_json::from_str(
        r#"{
            "five_hour": {"utilization": 1.0, "resets_at": "2026-05-22T22:10:00Z"},
            "seven_day": {"utilization": 0.14, "resets_at": "2026-05-29T10:00:00Z"},
            "seven_day_oauth_apps": {"utilization": 0.0},
            "limits": [{
                "kind": "weekly_scoped",
                "group": "weekly",
                "percent": 7,
                "resets_at": "2026-05-29T10:00:00Z",
                "scope": {"model": {"id": null, "display_name": "Fable"}},
                "is_active": false
            }],
            "extra_usage": {"is_enabled": true, "used_credits": 0, "monthly_limit": 1000, "currency": "USD"}
        }"#,
    )
    .expect("snake_case OAuth response should parse");
    let mut body = response();
    body.five_hour = window_of(&reply, "five_hour");
    body.seven_day = window_of(&reply, "seven_day");
    body.seven_day_design = window_of(&reply, "seven_day_oauth_apps");
    let extra = &reply["extra_usage"];
    body.extra_usage = Some(ExtraUsage {
        is_enabled: extra["is_enabled"].as_bool(),
        used_credits: extra["used_credits"].as_f64().map(q),
        monthly_limit: extra["monthly_limit"].as_f64().map(q),
        currency: extra["currency"].as_str().map(str::to_string),
    });
    let usage = build_usage_snapshot_with_options(
        &tool(),
        &body,
        None,
        None,
        vec![scoped(reply["limits"][0]["percent"].as_f64().unwrap())],
        None,
        true,
    );
    assert_eq!(usage.primary.used_percent, q(1.0));
    assert_eq!(usage.secondary.expect("weekly").used_percent, q(0.14));
    let id = format!("{}-weekly-scoped-fable", tool().command);
    let scoped = usage
        .extra_rate_windows
        .iter()
        .find(|window| window.id == id)
        .expect("Fable scoped weekly limit");
    assert_eq!(scoped.title, "Fable only");
    assert_eq!(scoped.window.used_percent, q(7.0));
}

#[test]
fn issue_210_reporter_shape_secondary_is_one_percent_not_one_hundred() {
    // Session 8%, fable 2%; all models are at 1% while the utilization of seven days is a
    // stale 1.0.
    let mut body = response();
    body.five_hour = used(8.0, Some("2026-07-20T04:29:59.671218Z"));
    body.seven_day = used(1.0, Some("2026-07-26T22:59:59.671246Z"));
    let plan = format!("{} Max 5x", tool().name);
    let usage = build_usage_snapshot_with_options(
        &tool(),
        &body,
        None,
        Some(limit(1.0, 10080)),
        vec![scoped(2.0)],
        Some(plan.clone()),
        true,
    );
    assert_eq!(usage.login_method, Some(plan));
    assert_eq!(usage.primary.used_percent, q(8.0));
    assert_eq!(usage.secondary.expect("secondary weekly").used_percent, q(1.0));
    let fable = usage
        .extra_rate_windows
        .iter()
        .find(|w| w.title.contains("Fable"))
        .expect("Fable only window");
    assert_eq!(fable.window.used_percent, q(2.0));
}

#[test]
fn issue_279_session_limits_win_over_stale_five_hour_after_rollover() {
    let mut body = response();
    body.five_hour = used(1.0, Some("2026-08-13T12:49:59.578826Z"));
    body.seven_day = used(0.01, Some("2026-07-26T22:59:59Z"));
    let usage = build_usage_snapshot_with_options(
        &tool(),
        &body,
        Some(limit(5.0, 300)),
        Some(limit(1.0, 10080)),
        vec![],
        None,
        true,
    );
    assert_eq!(usage.primary.used_percent, q(5.0));
    assert_eq!(usage.primary.window_minutes, Some(300));
    assert!(usage.primary.resets_at.is_some());
    assert_eq!(usage.secondary.expect("weekly").used_percent, q(1.0));
}

#[test]
fn session_falls_back_to_legacy_five_hour_without_limits_entry() {
    let mut body = response();
    body.five_hour = used(10.0, Some("2026-08-13T12:49:59Z"));
    let usage = build_usage_snapshot_with_options(&tool(), &body, None, None, vec![], None, true);
    assert_eq!(usage.primary.used_percent, q(10.0));
    assert_eq!(usage.primary.window_minutes, Some(300));
    assert_eq!(usage.login_method, Some(format!("{} (OAuth)", tool().name)));
}

#[test]
fn parses_retry_after_seconds() {
    assert_eq!(retry_after_duration(Some("17"), at(0)), 17 * SECOND);
}

#[test]
fn invalid_retry_after_uses_default_backoff() {
    assert_eq!(
        retry_after_duration(Some("not-a-date"), at(0)),
        DEFAULT_RATE_LIMIT_BACKOFF
    );
}

#[test]
fn a_date_to_retry_after_is_counted_from_now() {
    let now = at(784_111_777 - 30);
    assert_eq!(
        retry_after_duration(Some("Sun, 06 Nov 1994 08:49:37 GMT"), now),
        30 * SECOND
    );
}

#[test]
fn rate_limit_gate_blocks_and_clears() {
    let mut gate = RateLimitGate::new();
    gate.record_rate_limit(30 * SECOND, SECOND);
    assert!(gate.rate_limit_backoff_remaining(SECOND).is_some());

    gate.clear_rate_limit();
    assert!(gate.rate_limit_backoff_remaining(SECOND).is_none());
}

#[test]
fn rate_limited_error_preserves_credentials_language() {
    let error = rate_limited_error(&tool(), 5 * SECOND);
    let message = error.message();

    assert!(message.contains("rate limited"));
    assert!(message.contains("credentials were preserved"));
    assert!(message.contains("about 5s;"));
}

#[test]
fn oauth_extras_put_scoped_weekly_before_routines() {
    let mut body = response();
    body.five_hour = used(10.0, None);
    body.seven_day_routines = used(5.0, None);
    let usage =
        build_usage_snapshot_with_options(&tool(), &body, None, None, vec![scoped(7.0)], None, true);
    let ids: Vec<String> = usage.extra_rate_windows.iter().map(|w| w.id.clone()).collect();
    let command = tool().command;
    assert_eq!(
        ids,
        vec![format!("{command}-weekly-scoped-fable"), format!("{command}-routines")]
    );
}

#[test]
fn oauth_extras_hide_routines_when_disabled() {
    let mut body = response();
    body.five_hour = used(10.0, None);
    body.seven_day_routines = used(5.0, None);
    let usage =
        build_usage_snapshot_with_options(&tool(), &body, None, None, vec![scoped(7.0)], None, false);
    let command = tool().command;
    assert!(usage
        .extra_rate_windows
        .iter()
        .all(|w| w.id != format!("{command}-routines")));
    assert_eq!(usage.extra_rate_windows.len(), 1);
    assert_eq!(usage.extra_rate_windows[0].id, format!("{command}-weekly-scoped-fable"));
}

#[test]
fn a_request_needs_a_good_token_and_an_open_gate() {
    let mut gate = RateLimitGate::new();
    let good = credentials("t", None, Some(at(10_000)));
    assert!(before_usage_request(&tool(), &good, at(0), &mut gate, 0).is_ok());
    let expired = credentials("t", None, Some(at(0)));
    assert!(matches!(
        before_usage_request(&tool(), &expired, at(10), &mut gate, 0),
        Err(ProviderError::OAuthExpired(_))
    ));
    let mut scopeless = credentials("t", None, None);
    scopeless.scopes = vec!["other".to_string()];
    let error = before_usage_request(&tool(), &scopeless, at(0), &mut gate, 0).unwrap_err();
    assert!(error.message().contains("(has: other)"));
    gate.record_rate_limit(30 * SECOND, 0);
    assert!(before_usage_request(&tool(), &good, at(0), &mut gate, SECOND).is_err());
}

#[test]
fn refused_replies_are_told_apart() {
    let mut gate = RateLimitGate::new();
    let mut refuse = |status: u16, body: &str| {
        usage_refused(&tool(), status, "the status", body, Some("7"), at(0), &mut gate, 0)
    };
    assert!(matches!(refuse(401, "token revoked"), ProviderError::OAuthRevoked(_)));
    assert!(matches!(refuse(401, ""), ProviderError::OAuthExpired(_)));
    assert!(refuse(403, "user:profile").message().contains("setup-token"));
    assert!(refuse(429, "").message().contains("about 7s"));
    assert_eq!(refuse(500, "oops").message(), "API error the status: oops");
    assert_eq!(gate.rate_limit_backoff_remaining(0), Some(7 * SECOND));
    assert!(matches!(unreadable_usage("bad"), ProviderError::Parse(_)));
}

#[test]
fn an_access_token_alone_makes_credentials() {
    let c = access_token_credentials(&tool(), "  t  ").unwrap();
    assert_eq!(c.access_token, "t");
    assert_eq!(c.scopes, vec!["user:profile".to_string()]);
    assert!(access_token_credentials(&tool(), "   ").is_err());
}

#[test]
fn resets_are_read_and_described() {
    let window = UsageWindow {
        utilization: Some(q(3.0)),
        resets_at: Some("2026-05-22T22:10:00Z".into()),
    };
    let rate = to_rate_window(&window, Some(300)).unwrap();
    assert_eq!(rate.resets_at, Some(at(1_779_487_800)));
    assert_eq!(rate.reset_description.as_deref(), Some("May 22 at 10:10PM"));
    assert_eq!(parse_iso8601_date("2026-05-22T22:10:00"), Some(at(1_779_487_800)));
    assert_eq!(parse_iso8601_date("soon"), None);
}

#[test]
fn refreshes_follow_their_steps() {
    let mut cache: SourceTable<ClaudeOAuthCredentials> = SourceTable::new();
    let mut backoff: SourceTable<RefreshBackoffEntry> = SourceTable::new();
    let source = unique_source("steps");
    let now = at(10_000);
    let old = credentials("old", Some("r"), Some(at(0)));
    let FreshStep::Reread(old) = fresh_start(&cache, &source, old, now) else {
        panic!("expired credentials are read again")
    };
    let FreshStep::Refresh { credentials: old, refresh_token } =
        fresh_reread(&tool(), &mut cache, &mut backoff, &source, old, None, now, SECOND)
    else {
        panic!("what is still expired is refreshed")
    };
    assert_eq!(refresh_token, "r");
    let outcome = fresh_finish(
        &tool(),
        &mut cache,
        &mut backoff,
        &source,
        old,
        "r",
        Err(RefreshFailureKind::Transient),
        SECOND,
    );
    assert_eq!(outcome.message, Some(refresh_cooldown_message(&tool())));
    assert!(!outcome.persist);
    let error = stale_credentials_error(&outcome.credentials, outcome.message, now);
    assert!(error.is_some());
    let FreshStep::Use { message, .. } = fresh_reread(
        &tool(),
        &mut cache,
        &mut backoff,
        &source,
        outcome.credentials,
        None,
        now,
        2 * SECOND,
    ) else {
        panic!("a failed refresh holds the next one back")
    };
    assert!(message.is_some());
}

#[test]
fn parses_claude_code_credentials_payload() {
    let credentials = parse_credentials_json(
        &tool(),
        r#"{
                "claudeAiOauth": {
                    "accessToken": "token",
                    "refreshToken": "refresh",
                    "expiresAt": 1770000000000,
                    "scopes": ["user:profile"],
                    "rateLimitTier": "default_claude_ai"
                }
            }"#,
        at(0),
    )
    .expect("credential payload should parse");

    assert_eq!(credentials.access_token, "token");
    assert_eq!(credentials.refresh_token.as_deref(), Some("refresh"));
    assert_eq!(credentials.scopes, vec!["user:profile"]);
    assert_eq!(
        credentials.rate_limit_tier.as_deref(),
        Some("default_claude_ai")
    );
    assert_eq!(credentials.expires_at, Some(at(1_770_000_000)));
}

#[test]
fn parses_direct_oauth_credentials_payload() {
    let credentials = parse_credentials_json(
        &tool(),
        r#"{
                "accessToken": "token",
                "scopes": ["user:profile"]
            }"#,
        at(0),
    )
    .expect("direct OAuth payload should parse");

    assert_eq!(credentials.access_token, "token");
    assert_eq!(credentials.scopes, vec!["user:profile"]);
}

#[test]
fn rejects_credentials_payload_without_access_token() {
    let error = parse_credentials_json(
        &tool(),
        r#"{
                "claudeAiOauth": {
                    "refreshToken": "refresh",
                    "scopes": ["user:profile"]
                }
            }"#,
        at(0),
    )
    .expect_err("access token is required");

    assert!(error
        .message()
        .contains(&format!("{} OAuth access token missing", tool().name)));
}

#[test]
fn apply_refresh_updates_only_oauth_block_and_preserves_others() {
    let root = read_json(
        r#"{
                "mcpOAuth": {"some-server": {"accessToken": "keepme"}},
                "claudeAiOauth": {
                    "accessToken": "old",
                    "refreshToken": "old-refresh",
                    "expiresAt": 1000,
                    "scopes": ["user:profile"],
                    "subscriptionType": "max"
                }
            }"#,
    )
    .unwrap();

    let creds = ClaudeOAuthCredentials {
        access_token: "fresh-access".to_string(),
        refresh_token: Some("fresh-refresh".to_string()),
        expires_at: Some(at(2_000)),
        scopes: vec!["user:profile".to_string(), "user:inference".to_string()],
        rate_limit_tier: None,
    };

    let root = apply_refresh_to_credentials_json(&root, &creds).unwrap();

    let server = root.object_at("mcpOAuth").unwrap().object("some-server").unwrap();
    assert_eq!(server.text("accessToken"), Some("keepme"));
    let oauth = root.object_at("claudeAiOauth").unwrap();
    assert_eq!(oauth.text("subscriptionType"), Some("max"));
    assert_eq!(oauth.text("accessToken"), Some("fresh-access"));
    assert_eq!(oauth.text("refreshToken"), Some("fresh-refresh"));
    assert_eq!(oauth.get("expiresAt").unwrap().integer(), Some(2_000_000));
    match oauth.get("scopes").unwrap() {
        codexbar::json::Json::Array(items) => {
            let scopes: Vec<&str> = items.iter().filter_map(|s| s.text()).collect();
            assert_eq!(scopes, vec!["user:profile", "user:inference"]);
        }
        _ => panic!("scopes are an array"),
    }
}

#[test]
fn env_source_not_shadowed_by_file_cache() {
    let mut cache: SourceTable<ClaudeOAuthCredentials> = SourceTable::new();
    let file_source = CredentialSource::File(
        "env_source_not_shadowed_by_file_cache-unique-marker.json".to_string(),
    );
    let file_cached_creds =
        credentials("file-refreshed-token", Some("file-refresh"), Some(at(3_600)));
    store_refreshed(&mut cache, &file_source, &file_cached_creds);

    let env_creds = credentials("env-token", None, None);
    let result =
        cached_refreshed_if_fresher(&cache, &CredentialSource::Environment, &env_creds);
    assert!(
        result.is_none(),
        "environment credentials must not be shadowed by a file-sourced cache entry"
    );

    let file_disk_creds = credentials("file-disk-token", Some("file-disk-refresh"), None);
    let same_source_result = cached_refreshed_if_fresher(&cache, &file_source, &file_disk_creds);
    assert_eq!(
        same_source_result.map(|c| c.access_token),
        Some("file-refreshed-token".to_string())
    );
}

#[test]
fn credentials_may_be_arrays() {
    let fields = r#"["token","renew",1000.5,["user:profile"],"max"]"#;
    for text in [
        fields.to_string(),
        format!("[{fields}]"),
        format!(r#"{{"claudeAiOauth":{fields}}}"#),
    ] {
        let c = parse_credentials_json(&tool(), &text, at(0)).unwrap();
        assert_eq!(c.access_token, "token");
        assert_eq!(c.refresh_token.as_deref(), Some("renew"));
        assert_eq!(c.expires_at, Some(at(1)));
        assert_eq!(c.scopes, vec!["user:profile".to_string()]);
        assert_eq!(c.rate_limit_tier.as_deref(), Some("max"));
    }
    assert!(parse_credentials_json(&tool(), r#"["token"]"#, at(0)).is_err());
    assert!(parse_credentials_json(&tool(), r#"["token",null,null,null]"#, at(0)).is_err());
}

#[test]
fn refreshed_credentials_are_written_beside_doubles() {
    let content = r#"{"claudeAiOauth":{"accessToken":"old","expiresAt":1.5,"share":0.1},"rate":2.25}"#;
    let mut fresh = parse_credentials_json(&tool(), content, at(0)).unwrap();
    fresh.access_token = "new".to_string();
    fresh.expires_at = Some(at(1_800_000_000));
    let text = persisted_credentials(content, &fresh).unwrap();
    let back = parse_credentials_json(&tool(), &text, at(0)).unwrap();
    assert_eq!(back.access_token, "new");
    assert_eq!(back.expires_at, Some(at(1_800_000_000)));
    assert!(text.contains("0.1") && text.contains("2.25"));
}

#[test]
fn refreshed_credentials_are_written_and_read() {
    let content = r#"{"claudeAiOauth":{"accessToken":"old","scopes":["user:profile"]},"kept":1}"#;
    let fresh = credentials("new", Some("r"), Some(at(2_000)));
    let text = persisted_credentials(content, &fresh).unwrap();
    let back = parse_credentials_json(&tool(), &text, at(0)).unwrap();
    assert_eq!(back.access_token, "new");
    assert_eq!(back.refresh_token.as_deref(), Some("r"));
    assert_eq!(back.expires_at, Some(at(2_000)));
    assert_eq!(read_json(&text).unwrap().get("kept").unwrap().integer(), Some(1));
    assert!(should_persist(true, true));
    assert!(!should_persist(false, true));
    assert!(!should_persist(true, false));
}

#[test]
fn stores_are_tried_in_order() {
    let now = at(0);
    let env = load_from_environment(Some("env-token"), Some("a b")).unwrap();
    assert!(load_before_stores(&tool(), Some(env), false).unwrap().is_some());
    let off = load_before_stores(&tool(), None, false).unwrap_err();
    assert!(off.message().contains("credentials is off"));
    assert!(load_before_stores(&tool(), None, true).unwrap().is_none());

    let missing = load_from_file(&tool(), &FileRead::NotFound, now);
    let entries = vec![
        ("first".to_string(), None),
        ("second".to_string(), Some("  ".to_string())),
        ("third".to_string(), Some(r#"{"accessToken":"keyed"}"#.to_string())),
    ];
    let keyed = load_from_keyring(&tool(), &entries, now);
    let (found, source) = load_from_stores(missing, "/home/credentials", keyed).unwrap();
    assert_eq!(found.access_token, "keyed");
    assert!(matches!(source, CredentialSource::Keyring(account) if account == "third"));
    let nothing = load_from_stores(
        load_from_file(&tool(), &FileRead::NotFound, now),
        "/home/credentials",
        Ok(None),
    );
    assert!(nothing.unwrap_err().message().contains("credentials not found"));
}

#[test]
fn the_credentials_lie_in_the_directory_of_the_tool() {
    assert_eq!(
        credentials_path(&tool(), Ok("/home/x".into()), '/').unwrap(),
        "/home/x/.credentials.json"
    );
    assert!(credentials_path(&tool(), Err(AccountError::CliNotFound), '/').is_err());
    let accounts = keyring_account_candidates(Some("me"), Some("DOMAIN\\me"), None);
    assert_eq!(accounts.iter().filter(|a| a.as_str() == "me").count(), 1);
}

#[test]
fn tokens_run_out_five_minutes_early() {
    let now = chrono::Utc::now().timestamp();
    assert!(!credentials("t", None, Some(at(now + 3_600))).is_expired());
    assert!(credentials("t", None, Some(at(now + 200))).is_expired());
    assert!(!credentials("t", None, None).is_expired());
    let exact = credentials("t", None, Some(at(1_300)));
    assert!(credentials("t", None, Some(at(-1))).is_expired());
    assert!(exact.is_expired_at(at(1_000)));
    assert!(!exact.is_expired_at(at(999)));
}

#[test]
fn ends_in_leap_seconds_are_compared_as_times() {
    let leap = Moment { secs: 359, nanos: 1_500_000_000 };
    let token = credentials("t", None, Some(leap));
    assert!(!token.is_expired_at(Moment { secs: 59, nanos: 999_999_999 }));
    assert!(token.is_expired_at(at(60)));
    let after_leap = credentials("t", None, Some(Moment { secs: 359, nanos: 600_000_000 }));
    assert!(!after_leap.is_expired_at(Moment { secs: 59, nanos: 1_500_000_000 }));
    assert!(after_leap.is_expired_at(Moment { secs: 59, nanos: 1_600_000_000 }));
}

#[test]
fn a_wait_from_a_leap_second_is_never_negative() {
    // The last second of 6 November 1994, and the first of the day after.
    let next_day = Some("Mon, 07 Nov 1994 00:00:00 GMT");
    let leap = |nanos| Moment { secs: 784_166_399, nanos };
    assert_eq!(retry_after_duration(next_day, leap(500_000_000)), SECOND / 2);
    assert_eq!(retry_after_duration(next_day, leap(1_500_000_000)), DEFAULT_RATE_LIMIT_BACKOFF);
}
