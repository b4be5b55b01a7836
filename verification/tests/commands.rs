use codexbar::codex_accounts::account_manager::CodexAccountManagerError;
use codexbar::codex_accounts::api::CodexApiError;
use codexbar::codex_accounts::models::{
    utc_now, AccountUsageSnapshot, CodexAccount, CodexAccountSource, HomePath,
};
use codexbar::commands::codex_accounts::{
    absorb_account, find_codex_account, into_api_message, into_user_message,
    reconcile_codex_accounts, remaining_codex_accounts, take_in_snapshots,
};
use codexbar::commands::fetch_context::{
    build_fetch_context, provider_cookie_domain, provider_fetch_timeout,
    provider_uses_oauth_without_cookies, wants_browser_cookie, wants_browser_cookie_again,
    FetchSettings, SourceMode, TokenOverride,
};
use codexbar::commands::notifications::{
    notify_predictive_pace, notify_usage_thresholds, predictive_warning_identity,
    quota_notification_account_identity, Notice, QuotaWindow,
};
use codexbar::commands::pricing::{get_deepseek_pricing_status, PricingPeriod};
use codexbar::commands::providers::{
    begin_provider_refresh, codex_reset_backfill, codex_reset_backfill_at, fetched_snapshot,
    finish_provider_refresh, invalidate_account_usage,
    invalidate_provider_refresh_and_prune_disabled, is_claude_cli_rate_limit_failure,
    is_claude_cli_usage_parse_failure, is_claude_timeout_failure,
    is_current_provider_refresh_generation, is_hard_claude_auth_loss, is_provider_cache_fresh,
    is_transient_claude_auth_error, prepare_provider_refresh, preserve_last_good_transient_failure,
    provider_cache_can_skip_refresh, prune_provider_cache_to_enabled, publish_provider_snapshot,
    record_provider_fetch_duration, upsert_provider_cache, AppState, FetchOutcome,
};
use codexbar::locale::Language;
use codexbar::moment::Moment;
use codexbar::quantity::Quantity;
use codexbar::settings::{Settings, TrayIconMode};
use codexbar::snapshot::{
    Provider, ProviderId, ProviderStateKind, ProviderUsageSnapshot, RateWindowSnapshot,
};
use std::collections::HashMap;
use uuid::Uuid;

fn q(v: f64) -> Quantity {
    Quantity::from_double_bits(v.to_bits()).unwrap()
}

fn at(secs: i64) -> Moment {
    Moment { secs, nanos: 0 }
}

fn provider(id: ProviderId) -> Provider {
    let name = format!("{id:?}");
    Provider {
        id,
        cli_name: name.to_lowercase(),
        display_name: name,
        cookie_domain: Some("example.com".into()),
        supports_cli: true,
    }
}

fn tool_provider() -> Provider {
    provider(ProviderId::Claude)
}

fn settings() -> Settings {
    Settings {
        enabled_providers: vec!["codex".to_string()],
        provider_display_order: vec![],
        ui_language: Language::English,
        hide_personal_info: false,
        float_bar_enabled: false,
        tray_icon_mode: TrayIconMode::Single,
        menu_bar_shows_highest_usage: false,
        menu_bar_display_mode: "detailed".into(),
        menu_bar_shows_percent: false,
        show_as_used: true,
        hooks_enabled: true,
        show_notifications: true,
        predictive_pace_warning_enabled: true,
    }
}

fn win(used: f64, resets_at: Option<&str>) -> RateWindowSnapshot {
    let mut w = RateWindowSnapshot::unused();
    w.used_percent = q(used);
    w.remaining_percent = q(100.0 - used);
    w.window_minutes = Some(300);
    w.resets_at = resets_at.map(String::from);
    w
}

fn codex_snapshot(primary: RateWindowSnapshot) -> ProviderUsageSnapshot {
    ProviderUsageSnapshot {
        provider_id: "codex".into(),
        display_name: "Codex".into(),
        primary,
        secondary: None,
        model_specific: None,
        tertiary: None,
        cost: None,
        plan_name: None,
        account_email: None,
        account_organization: None,
        source_label: String::new(),
        updated_at: "2026-01-01T00:00:00Z".into(),
        error: None,
        error_state: ProviderStateKind::Ready,
        fetch_duration_ms: None,
    }
}

fn of(provider: &Provider, used: f64, error: Option<&str>) -> ProviderUsageSnapshot {
    let mut s = codex_snapshot(win(used, None));
    s.provider_id = provider.cli_name.clone();
    s.display_name = provider.display_name.clone();
    s.error = error.map(String::from);
    s
}

fn in_hours(hours: i64) -> String {
    (chrono::Utc::now() + chrono::Duration::hours(hours)).to_rfc3339()
}

#[test]
fn f6_backfills_future_cached_reset() {
    let future = in_hours(2);
    let cached = codex_snapshot(win(50.0, Some(&future)));
    let mut fresh = codex_snapshot(win(30.0, None));
    codex_reset_backfill(&mut fresh, Some(&cached));
    assert_eq!(fresh.primary.resets_at.as_deref(), Some(future.as_str()));
    // used_percent is NOT overwritten.
    assert_eq!(fresh.primary.used_percent, q(30.0));
}

#[test]
fn f6_does_not_backfill_stale_cached_reset() {
    let past = in_hours(-2);
    let cached = codex_snapshot(win(50.0, Some(&past)));
    let mut fresh = codex_snapshot(win(30.0, None));
    codex_reset_backfill(&mut fresh, Some(&cached));
    assert!(
        fresh.primary.resets_at.is_none(),
        "stale reset not backfilled"
    );
}

#[test]
fn f6_does_not_overwrite_existing_resets_at() {
    let future1 = in_hours(3);
    let future2 = in_hours(5);
    let cached = codex_snapshot(win(50.0, Some(&future2)));
    let mut fresh = codex_snapshot(win(30.0, Some(&future1)));
    codex_reset_backfill(&mut fresh, Some(&cached));
    assert_eq!(fresh.primary.resets_at.as_deref(), Some(future1.as_str()));
}

#[test]
fn f6_skips_non_codex_provider() {
    let future = in_hours(2);
    let mut cached = codex_snapshot(win(50.0, Some(&future)));
    cached.provider_id = tool_provider().cli_name;
    let mut fresh = codex_snapshot(win(30.0, None));
    fresh.provider_id = tool_provider().cli_name;
    codex_reset_backfill(&mut fresh, Some(&cached));
    assert!(fresh.primary.resets_at.is_none(), "non-codex skip");
}

#[test]
fn f6_skips_when_no_cached_snapshot() {
    let mut fresh = codex_snapshot(win(30.0, None));
    codex_reset_backfill(&mut fresh, None);
    assert!(fresh.primary.resets_at.is_none());
}

#[test]
fn a_reset_at_this_very_moment_is_not_filled_in() {
    let cached = codex_snapshot(win(50.0, Some("2026-01-01T00:00:00Z")));
    let mut fresh = codex_snapshot(win(30.0, None));
    codex_reset_backfill_at(&mut fresh, Some(&cached), at(1_767_225_600));
    assert!(fresh.primary.resets_at.is_none());
    codex_reset_backfill_at(&mut fresh, Some(&cached), at(1_767_225_599));
    assert!(fresh.primary.resets_at.is_some());
}

const ACCOUNT: &str = "aaaaaaaa-aaaa-aaaa-aaaa-aaaaaaaaaaaa";

fn account_id() -> u128 {
    Uuid::parse_str(ACCOUNT).unwrap().as_u128()
}

#[test]
fn predictive_warning_identity_keeps_claude_sources_and_token_accounts_separate() {
    let identity = |source: &str, token: Option<u128>| {
        predictive_warning_identity(
            ProviderId::Claude,
            source,
            Some("Person@Example.com"),
            token,
        )
    };
    assert_eq!(identity("cli", None).as_deref(), Some("cli:person@example.com"));
    assert_eq!(identity("oauth", None).as_deref(), Some("oauth:person@example.com"));
    assert_eq!(
        identity("oauth", Some(account_id())).as_deref(),
        Some("token-account:aaaaaaaa-aaaa-aaaa-aaaa-aaaaaaaaaaaa")
    );
}

#[test]
fn predictive_warning_identity_skips_unidentified_accounts() {
    assert_eq!(
        predictive_warning_identity(ProviderId::Claude, "oauth", None, None),
        None
    );
    assert_eq!(
        predictive_warning_identity(ProviderId::Codex, "cli", Some("  "), None),
        None
    );
    assert_eq!(
        predictive_warning_identity(ProviderId::Kimi, "cli", Some("a@b.c"), None),
        None
    );
}

#[test]
fn quota_notification_account_identity_prefers_token_then_email() {
    let mut snapshot = of(&tool_provider(), 0.0, Some("unused"));
    snapshot.account_email = Some("Person@Example.com".to_string());
    snapshot.account_organization = Some("Acme Org".to_string());
    snapshot.plan_name = Some("Pro".to_string());

    assert_eq!(
        quota_notification_account_identity(&snapshot, Some(account_id())),
        "token-account:aaaaaaaa-aaaa-aaaa-aaaa-aaaaaaaaaaaa"
    );
    assert_eq!(
        quota_notification_account_identity(&snapshot, None),
        "person@example.com"
    );

    snapshot.account_email = None;
    assert_eq!(
        quota_notification_account_identity(&snapshot, None),
        "org:acme org"
    );

    snapshot.account_organization = None;
    assert_eq!(quota_notification_account_identity(&snapshot, None), "");

    snapshot.plan_name = None;
    assert_eq!(quota_notification_account_identity(&snapshot, None), "");
}

#[test]
fn switching_invalidates_old_identity_usage_and_inflight_results() {
    let provider = tool_provider();
    let mut state = AppState::new();
    let mut old = invalidate_account_usage(&mut state, &provider, "now".into());
    old.account_email = Some("old@example.com".into());
    old.plan_name = Some("old-plan".into());
    old.error = None;
    old.primary.used_percent = q(80.0);
    state.provider_cache = vec![old];
    state.is_refreshing = true;
    state.transient_provider_failure_counts.put(ProviderId::Claude, 1);
    let generation = state.provider_refresh_generation;
    let pending = invalidate_account_usage(&mut state, &provider, "now".into());
    assert!(pending.account_email.is_none());
    assert!(pending.plan_name.is_none());
    assert!(pending.error.is_some());
    assert_eq!(pending.primary.used_percent, q(0.0));
    assert_eq!(state.provider_cache.len(), 1);
    assert!(state.provider_cache[0].error.is_some());
    assert_ne!(state.provider_refresh_generation, generation);
    assert!(!state.is_refreshing);
    assert!(state
        .transient_provider_failure_counts
        .get(ProviderId::Claude)
        .is_none());
    assert_eq!(
        pending.error,
        Some(format!("Account changed. Refreshing {} usage…", provider.display_name))
    );
}

#[test]
fn one_batch_runs_at_a_time() {
    let mut state = AppState::new();
    let first = begin_provider_refresh(&mut state, true, false, 5, 10).unwrap();
    assert_eq!(first, 1);
    assert!(begin_provider_refresh(&mut state, true, false, 6, 10).is_none());
    let codex = provider(ProviderId::Codex);
    assert!(publish_provider_snapshot(&mut state, &codex, first, of(&codex, 1.0, None), at(0)).is_some());
    assert_eq!(finish_provider_refresh(&mut state, first, 7), Some(0));
    assert!(!state.is_refreshing);
    assert_eq!(state.provider_cache_updated_at, Some(7));
    assert!(begin_provider_refresh(&mut state, false, false, 17, 10).is_none());
    assert_eq!(begin_provider_refresh(&mut state, false, false, 18, 10), Some(2));
}

#[test]
fn a_superseded_batch_changes_nothing() {
    let codex = provider(ProviderId::Codex);
    let mut state = AppState::new();
    let first = begin_provider_refresh(&mut state, true, false, 5, 10).unwrap();
    invalidate_provider_refresh_and_prune_disabled(&mut state, &vec![provider(ProviderId::Codex)]);
    assert!(!is_current_provider_refresh_generation(&state, first));
    assert!(publish_provider_snapshot(&mut state, &codex, first, of(&codex, 1.0, None), at(0)).is_none());
    assert!(state.provider_cache.is_empty());
    assert_eq!(finish_provider_refresh(&mut state, first, 9), None);
    assert_eq!(state.provider_cache_updated_at, None);
}

#[test]
fn a_pinned_cache_is_not_refreshed() {
    let mut state = AppState::new();
    assert!(!provider_cache_can_skip_refresh(&state, false, true, 0, 0));
    state.provider_cache.push(codex_snapshot(win(1.0, None)));
    assert!(provider_cache_can_skip_refresh(&state, false, true, 0, 0));
    assert!(!provider_cache_can_skip_refresh(&state, true, true, 0, 0));
    assert!(is_provider_cache_fresh(Some(10), 20, 10));
    assert!(!is_provider_cache_fresh(Some(10), 21, 10));
    assert!(is_provider_cache_fresh(Some(10), 5, 0));
    assert!(!is_provider_cache_fresh(None, 5, 10));
}

#[test]
fn the_cache_holds_one_snapshot_for_each_provider() {
    let codex = provider(ProviderId::Codex);
    let grok = provider(ProviderId::Grok);
    let mut cache = vec![of(&codex, 1.0, None), of(&grok, 2.0, None)];
    upsert_provider_cache(&mut cache, of(&codex, 9.0, None));
    assert_eq!(cache.len(), 2);
    assert_eq!(cache[0].primary.used_percent, q(9.0));
    prune_provider_cache_to_enabled(&mut cache, &vec![provider(ProviderId::Grok)]);
    assert_eq!(cache.len(), 1);
    assert_eq!(cache[0].provider_id, "grok");
}

#[test]
fn a_refused_login_is_hidden_once() {
    let p = tool_provider();
    let mut state = AppState::new();
    state.provider_cache.push(of(&p, 40.0, None));
    let shown = preserve_last_good_transient_failure(&mut state, &p, of(&p, 0.0, Some("Unauthorized")));
    assert!(shown.error.is_none());
    assert_eq!(shown.primary.used_percent, q(40.0));
    let again = preserve_last_good_transient_failure(&mut state, &p, of(&p, 0.0, Some("Unauthorized")));
    assert!(again.error.is_some());
    assert_eq!(state.transient_provider_failure_counts.get(p.id), Some(2));
}

#[test]
fn late_answers_keep_the_last_good_snapshot_every_time() {
    let p = tool_provider();
    let mut state = AppState::new();
    state.provider_cache.push(of(&p, 40.0, None));
    for _ in 0..3 {
        let shown = preserve_last_good_transient_failure(&mut state, &p, of(&p, 0.0, Some("Timeout")));
        assert!(shown.error.is_none());
    }
    let codex = provider(ProviderId::Codex);
    state.provider_cache.push(of(&codex, 10.0, None));
    let other = preserve_last_good_transient_failure(&mut state, &codex, of(&codex, 0.0, Some("Timeout")));
    assert!(other.error.is_some());
}

#[test]
fn errors_of_the_tool_are_told_apart() {
    let command = tool_provider().cli_name;
    let run = format!("Run `{command}` to authenticate");
    assert!(is_hard_claude_auth_loss(Some(&run), &command));
    assert!(is_hard_claude_auth_loss(Some("Credentials not found"), &command));
    assert!(is_hard_claude_auth_loss(Some(&format!("{command} is not installed")), &command));
    assert!(!is_hard_claude_auth_loss(Some("not installed"), &command));
    assert!(is_hard_claude_auth_loss(Some("Subscription unavailable"), &command));
    assert!(is_transient_claude_auth_error(Some("AUTH REQUIRED")));
    assert!(is_claude_cli_usage_parse_failure(Some("Could not parse the reply")));
    assert!(is_claude_cli_rate_limit_failure(Some("RateLimited")));
    assert!(is_claude_timeout_failure(Some("TIMEOUT")));
    assert!(is_claude_timeout_failure(Some("it timed out")));
    assert!(!is_claude_timeout_failure(Some("timeout soon")));
    assert!(!is_claude_timeout_failure(None));
}

#[test]
fn slow_fetches_are_noticed() {
    let mut s = codex_snapshot(win(1.0, None));
    assert!(!record_provider_fetch_duration(&mut s, 5_000));
    assert!(record_provider_fetch_duration(&mut s, 5_001));
    assert_eq!(s.fetch_duration_ms, Some(5_001));
}

fn fetch_settings(cookie_source: &str) -> FetchSettings {
    FetchSettings {
        cookie_source: cookie_source.into(),
        usage_source: None,
        stored_cookie: None,
        stored_api_key: Some("stored".into()),
        token: None,
        workspace_id: "  ws  ".into(),
        api_region: "   ".into(),
        gateway_url: "http://gateway".into(),
        region_domain: "region.example".into(),
        web_timeout: 30,
    }
}

#[test]
fn cookies_that_are_off_are_not_sent() {
    let mut f = fetch_settings("off");
    f.stored_cookie = Some("cookie".into());
    let p = tool_provider();
    let ctx = build_fetch_context(&p, &f, Some("browser"), Some("browser"));
    assert_eq!(ctx.source_mode, SourceMode::OAuth);
    assert_eq!(ctx.manual_cookie_header, None);
    assert_eq!(wants_browser_cookie(&p, &f), None);
    assert_eq!(ctx.workspace_id.as_deref(), Some("ws"));
    assert_eq!(ctx.api_region, None);
    assert_eq!(ctx.gateway_url, None);
    let factory = build_fetch_context(&provider(ProviderId::Factory), &f, None, None);
    assert_eq!(factory.source_mode, SourceMode::Cli);
}

#[test]
fn the_browser_is_asked_only_where_no_cookie_is_at_hand() {
    let p = provider(ProviderId::Other(1));
    let mut f = fetch_settings("auto");
    assert_eq!(wants_browser_cookie(&p, &f).as_deref(), Some("example.com"));
    let ctx = build_fetch_context(&p, &f, Some("browser"), None);
    assert_eq!(ctx.manual_cookie_header.as_deref(), Some("browser"));
    assert_eq!(ctx.source_mode, SourceMode::Auto);
    f.stored_cookie = Some("stored".into());
    assert_eq!(wants_browser_cookie(&p, &f), None);
    let ctx = build_fetch_context(&p, &f, Some("browser"), None);
    assert_eq!(ctx.manual_cookie_header.as_deref(), Some("stored"));
}

#[test]
fn a_provider_without_a_command_line_is_asked_on_the_web() {
    let mut p = provider(ProviderId::Other(1));
    p.supports_cli = false;
    let f = fetch_settings("manual");
    assert_eq!(wants_browser_cookie_again(&p, &f, None).as_deref(), Some("example.com"));
    let ctx = build_fetch_context(&p, &f, None, Some("second"));
    assert_eq!(ctx.source_mode, SourceMode::Web);
    assert_eq!(ctx.manual_cookie_header.as_deref(), Some("second"));
    assert!(ctx.auto_prefer_web);
}

#[test]
fn a_token_account_brings_its_own_key() {
    let mut f = fetch_settings("manual");
    f.token = Some(TokenOverride {
        cookie_header: None,
        env_values: Some(vec!["token-key".into()]),
    });
    let ctx = build_fetch_context(&provider(ProviderId::Wayfinder), &f, None, None);
    assert_eq!(ctx.api_key.as_deref(), Some("token-key"));
    assert_eq!(ctx.source_mode, SourceMode::OAuth);
    assert_eq!(ctx.gateway_url.as_deref(), Some("http://gateway"));
}

#[test]
fn keyed_providers_stay_automatic() {
    let ctx = build_fetch_context(&provider(ProviderId::Kimi), &fetch_settings("off"), None, None);
    assert_eq!(ctx.source_mode, SourceMode::Auto);
    assert!(provider_uses_oauth_without_cookies(ProviderId::Grok, SourceMode::OAuth));
    assert!(!provider_uses_oauth_without_cookies(ProviderId::Grok, SourceMode::Web));
    assert_eq!(
        provider_cookie_domain(&provider(ProviderId::MiniMax), "region.example").as_deref(),
        Some("region.example")
    );
}

#[test]
fn waits_are_bounded_by_the_provider() {
    let mut ctx = build_fetch_context(&tool_provider(), &fetch_settings("off"), None, None);
    ctx.web_timeout = 10;
    assert_eq!(provider_fetch_timeout(ProviderId::Claude, &ctx), 75);
    assert_eq!(provider_fetch_timeout(ProviderId::Kimi, &ctx), 35);
    ctx.web_timeout = 50;
    assert_eq!(provider_fetch_timeout(ProviderId::Kimi, &ctx), 55);
    ctx.web_timeout = u64::MAX;
    assert_eq!(provider_fetch_timeout(ProviderId::Kimi, &ctx), 65);
}

#[test]
fn quotas_are_announced_for_providers_that_are_well() {
    let codex = provider(ProviderId::Codex);
    let mut good = of(&codex, 80.0, None);
    good.account_email = Some("A@b.c".into());
    good.source_label = "oauth".into();
    good.secondary = Some(win(20.0, Some("2026-01-01T00:00:00Z")));
    let bad = of(&tool_provider(), 80.0, Some("down"));
    let notices = notify_usage_thresholds(
        &settings(),
        &vec![provider(ProviderId::Codex), tool_provider()],
        &vec![],
        &vec![good, bad],
    );
    assert_eq!(notices.len(), 8);
    assert!(matches!(&notices[0], Notice::Threshold { account, window: QuotaWindow::Session, used, .. } if account == "a@b.c" && *used == q(80.0)));
    assert!(matches!(&notices[1], Notice::SessionTransition { .. }));
    assert!(matches!(&notices[2], Notice::Hook { owner: Some(owner), .. } if owner == "a@b.c"));
    assert!(matches!(&notices[3], Notice::Threshold { window: QuotaWindow::Weekly, .. }));
    assert!(matches!(&notices[5], Notice::PaceWatch { enabled: true, .. }));
    assert!(matches!(&notices[7], Notice::Pace { default_window_minutes: 10080, resets_at: Some(t), identity, .. } if *t == at(1_767_225_600) && identity == "oauth:a@b.c"));
}

#[test]
fn placeholders_and_hidden_names_stay_silent() {
    let codex = provider(ProviderId::Codex);
    let mut s = of(&codex, 80.0, None);
    s.account_email = Some("a@b.c".into());
    s.primary.is_informational = true;
    s.secondary = Some(win(20.0, None));
    let mut quiet = settings();
    quiet.hide_personal_info = true;
    quiet.show_notifications = false;
    let notices = notify_usage_thresholds(&quiet, &vec![codex], &vec![], &vec![s]);
    assert_eq!(notices.len(), 3);
    assert!(matches!(&notices[0], Notice::Threshold { window: QuotaWindow::Weekly, .. }));
    assert!(matches!(&notices[1], Notice::Hook { owner: None, .. }));
    assert!(matches!(&notices[2], Notice::PaceWatch { enabled: false, .. }));
    let grok = provider(ProviderId::Grok);
    let pace = notify_predictive_pace(&settings(), grok.id, &of(&grok, 1.0, None), None);
    assert_eq!(pace.len(), 1);
}

#[test]
fn prices_are_shown_where_the_provider_is_on() {
    let mut s = settings();
    let show = |s: &Settings| {
        get_deepseek_pricing_status(s, PricingPeriod::OffPeak, "now".into(), None, "then".into())
    };
    assert!(show(&s).is_none());
    s.enabled_providers.push("deepseek".into());
    let status = show(&s).unwrap();
    assert_eq!(status.period, "offPeak");
    assert_eq!(status.effective_local_time, "then");
}

fn account(n: u128, owner: &str, source: CodexAccountSource, home: &str) -> CodexAccount {
    CodexAccount::new(
        n,
        None,
        None,
        None,
        Some(owner.into()),
        HomePath::resolve(home),
        source,
        utc_now(),
        utc_now(),
        None,
    )
}

#[test]
fn into_user_message_preserves_friendly_text() {
    assert_eq!(
        into_user_message(&CodexAccountManagerError::Message(
            "The `codex` command could not be found.".to_string()
        )),
        "The `codex` command could not be found."
    );
    assert_eq!(into_api_message(&CodexApiError::Network("x".into())), "network error: x");
}

#[test]
fn accounts_are_reconciled_with_what_is_found() {
    let managed = CodexAccountSource::ManagedByApp;
    let ambient = CodexAccountSource::Ambient;
    let mut stored = account(1, "one", managed, "/h/one");
    stored.nickname = Some("Mine".into());
    let stale = account(2, "gone", ambient, "/h/ambient");
    let found = account(3, "one", managed, "/h/one");
    let fresh = account(4, "two", managed, "/h/two");
    let active = account(5, "three", ambient, "/h/ambient");
    let all = reconcile_codex_accounts(
        &vec![stored, stale],
        &vec![found, fresh],
        Some(&active),
    );
    let ids: Vec<u128> = all.iter().map(|a| a.id).collect();
    assert_eq!(ids, vec![1, 4, 5]);
    assert_eq!(all[0].nickname.as_deref(), Some("Mine"));
}

#[test]
fn an_account_is_found_and_removed_by_its_id() {
    let managed = CodexAccountSource::ManagedByApp;
    let mut accounts = vec![account(1, "one", managed, "/h/one"), account(2, "two", managed, "/h/two")];
    let id = Uuid::from_u128(2).to_string();
    assert_eq!(find_codex_account(&accounts, &id), Ok(1));
    assert_eq!(find_codex_account(&accounts, "x"), Err("Codex account not found.".to_string()));
    let left = remaining_codex_accounts(&accounts, &id);
    assert_eq!(left.len(), 1);
    assert_eq!(left[0].id, 1);
    absorb_account(&mut accounts, &account(9, "TWO", managed, "/h/other"));
    assert_eq!(accounts.len(), 2);
    absorb_account(&mut accounts, &account(9, "nine", managed, "/h/nine"));
    assert_eq!(accounts.len(), 3);
}

#[test]
fn failed_lanes_keep_the_last_snapshot() {
    let usage = |plan: &str| AccountUsageSnapshot {
        email: None,
        provider_account_id: None,
        plan: Some(plan.into()),
        allowed: None,
        limit_reached: None,
        primary_window: None,
        secondary_window: None,
        credits: None,
        updated_at: at(0),
    };
    let mut snapshots: HashMap<u128, AccountUsageSnapshot> = HashMap::new();
    take_in_snapshots(&mut snapshots, vec![Some((1, usage("old"))), Some((2, usage("kept")))]);
    take_in_snapshots(&mut snapshots, vec![Some((1, usage("new"))), None]);
    assert_eq!(snapshots[&1].plan.as_deref(), Some("new"));
    assert_eq!(snapshots[&2].plan.as_deref(), Some("kept"));
}

#[test]
fn a_batch_fetches_the_enabled_providers() {
    let mut state = AppState::new();
    let grok = provider(ProviderId::Grok);
    state.provider_cache.push(of(&grok, 1.0, None));
    let generation = begin_provider_refresh(&mut state, true, false, 0, 0).unwrap();
    let late = prepare_provider_refresh(&mut state, generation + 1, &vec![]);
    assert!(late.names.is_empty() && !late.account_lanes);
    assert_eq!(state.provider_cache.len(), 1);
    let plan = prepare_provider_refresh(
        &mut state,
        generation,
        &vec![provider(ProviderId::Codex), tool_provider()],
    );
    assert_eq!(plan.names, vec!["codex".to_string(), tool_provider().cli_name]);
    assert!(plan.account_lanes);
    assert!(state.provider_cache.is_empty());
}

#[test]
fn fetches_end_in_a_snapshot() {
    let p = provider(ProviderId::Codex);
    let (late, slow) = fetched_snapshot(&p, FetchOutcome::TimedOut, "now".into(), 35_000);
    assert_eq!(late.error.as_deref(), Some("Timeout"));
    assert!(matches!(late.error_state, ProviderStateKind::Unknown));
    assert!(slow);
    let failed = FetchOutcome::Failed {
        message: "down".into(),
        state: ProviderStateKind::Other(3),
    };
    let (failed, slow) = fetched_snapshot(&p, failed, "now".into(), 10);
    assert_eq!(failed.error.as_deref(), Some("down"));
    assert_eq!(failed.updated_at, "now");
    assert!(!slow);
    let good = FetchOutcome::Fetched(of(&p, 12.0, None));
    let (good, _) = fetched_snapshot(&p, good, "now".into(), 10);
    assert_eq!(good.primary.used_percent, q(12.0));
    assert_eq!(good.fetch_duration_ms, Some(10));
}
