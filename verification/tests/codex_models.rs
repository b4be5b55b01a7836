use codexbar::codex_accounts::models::{
    _path_is_trailing, account_sort_priority, contains_offset, datetime_text, format_datetime,
    normalize_identifier, parse_datetime, utc_now, AccountUsageSnapshot, CodexAccount,
    CodexAccountSource, CreditsBalanceSnapshot, HomePath, RemovedAccountIdentity,
    UsageWindowSnapshot, WindowRole,
};
use codexbar::moment::Moment;
use codexbar::quantity::Quantity;
use uuid::Uuid;

fn q(v: f64) -> Quantity {
    Quantity::from_double_bits(v.to_bits()).unwrap()
}

fn at(secs: i64) -> Moment {
    Moment { secs, nanos: 0 }
}

fn account(
    id: &str,
    home: &str,
    source: CodexAccountSource,
    provider_id: Option<&str>,
) -> CodexAccount {
    CodexAccount::new(
        Uuid::parse_str(id).unwrap().as_u128(),
        None,
        None,
        None,
        provider_id.map(str::to_string),
        HomePath::resolve(home),
        source,
        utc_now(),
        utc_now(),
        None,
    )
}

#[test]
fn matches_by_home_path() {
    let a = account(
        "11111111-1111-1111-1111-111111111111",
        "/x/a",
        CodexAccountSource::ManagedByApp,
        None,
    );
    let b = account(
        "22222222-2222-2222-2222-222222222222",
        "/x/a",
        CodexAccountSource::ManagedByApp,
        None,
    );
    assert!(a.matches(&b));
}

#[test]
fn matches_by_provider_account_id() {
    let a = account(
        "11111111-1111-1111-1111-111111111111",
        "/x/a",
        CodexAccountSource::ManagedByApp,
        Some("acct-1"),
    );
    let b = account(
        "22222222-2222-2222-2222-222222222222",
        "/y/b",
        CodexAccountSource::ManagedByApp,
        Some("ACCT-1"),
    );
    assert!(a.matches(&b));
}

#[test]
fn disambiguates_different_provider_ids() {
    let a = account(
        "11111111-1111-1111-1111-111111111111",
        "/x/a",
        CodexAccountSource::ManagedByApp,
        Some("acct-1"),
    );
    let b = account(
        "22222222-2222-2222-2222-222222222222",
        "/y/b",
        CodexAccountSource::ManagedByApp,
        Some("acct-2"),
    );
    assert!(!a.matches(&b));
    let mut same_home = b.clone();
    same_home.codex_home_path = a.codex_home_path.clone();
    assert!(
        !a.matches(&same_home),
        "switching auth.json changes the identity at the same home"
    );
}

#[test]
fn different_fallback_identities_do_not_match_the_same_home() {
    let mut a = account(
        "11111111-1111-1111-1111-111111111111",
        "/x/a",
        CodexAccountSource::ManagedByApp,
        None,
    );
    let mut b = a.clone();
    a.email_hint = Some("old@example.com".into());
    b.email_hint = Some("new@example.com".into());
    assert!(!a.matches(&b));
    b.email_hint = a.email_hint.clone();
    assert!(a.matches(&b));
    a.auth_subject = Some("old-subject".into());
    b.auth_subject = Some("new-subject".into());
    assert!(!a.matches(&b));
    b.auth_subject = a.auth_subject.clone();
    assert!(a.matches(&b));
    b.auth_subject = None;
    b.email_hint = None;
    assert!(!a.matches(&b));
}

#[test]
fn source_displays_and_ownership() {
    assert_eq!(CodexAccountSource::Ambient.display_name(), "System");
    assert_eq!(CodexAccountSource::ManagedByApp.display_name(), "Managed");
    assert!(CodexAccountSource::ManagedByApp.owns_files());
    assert!(!CodexAccountSource::Ambient.owns_files());
}

#[test]
fn window_role_classification() {
    assert_eq!(
        UsageWindowSnapshot::new(q(0.0), None, 18_000).role(),
        WindowRole::Session
    );
    assert_eq!(
        UsageWindowSnapshot::new(q(0.0), None, 604_800).role(),
        WindowRole::Weekly
    );
    assert_eq!(
        UsageWindowSnapshot::new(q(0.0), None, 1234).role(),
        WindowRole::Unknown
    );
    assert_eq!(
        UsageWindowSnapshot::new(q(0.0), None, 2_592_000).role(),
        WindowRole::Monthly
    );
}

fn snapshot(allowed: Option<bool>, used: f64, reset: Option<Moment>) -> AccountUsageSnapshot {
    AccountUsageSnapshot {
        email: None,
        provider_account_id: None,
        plan: None,
        allowed,
        limit_reached: None,
        primary_window: Some(UsageWindowSnapshot::new(q(used), reset, 18_000)),
        secondary_window: None,
        credits: None,
        updated_at: utc_now(),
    }
}

#[test]
fn blocked_account_has_no_usable_quota() {
    let snapshot = snapshot(Some(false), 10.0, None);
    assert!(snapshot.is_quota_blocked());
    assert!(!snapshot.has_usable_quota_now());
    assert_eq!(snapshot.lowest_remaining_percent(), q(0.0));
}

#[test]
fn parse_datetime_accepts_z_and_offset() {
    assert!(parse_datetime("2026-01-01T00:00:00Z").is_some());
    assert!(parse_datetime("2026-01-01T00:00:00+00:00").is_some());
    assert!(parse_datetime("").is_none());
}

#[test]
fn credits_display_value() {
    assert_eq!(
        CreditsBalanceSnapshot {
            has_credits: true,
            unlimited: true,
            balance: None
        }
        .display_value(),
        "Unlimited"
    );
    assert_eq!(
        CreditsBalanceSnapshot {
            has_credits: true,
            unlimited: false,
            balance: Some(q(12.50))
        }
        .display_value(),
        "12.5"
    );
    assert_eq!(
        CreditsBalanceSnapshot {
            has_credits: true,
            unlimited: false,
            balance: None
        }
        .display_value(),
        "Available"
    );
    assert_eq!(
        CreditsBalanceSnapshot {
            has_credits: false,
            unlimited: false,
            balance: None
        }
        .display_value(),
        "None"
    );
}

#[test]
fn merge_prefers_managed_and_recency() {
    let mut managed = account(
        "11111111-1111-1111-1111-111111111111",
        "/x/managed",
        CodexAccountSource::ManagedByApp,
        None,
    );
    managed.nickname = Some("My acct".to_string());
    let ambient = account(
        "22222222-2222-2222-2222-222222222222",
        "~/.codex-like/ambient",
        CodexAccountSource::Ambient,
        None,
    );
    managed.merge_from(&ambient);
    assert_eq!(managed.source, CodexAccountSource::ManagedByApp);
    assert_eq!(managed.display_name(), "My acct");
}

#[test]
fn display_name_falls_back_to_home() {
    let acct = account(
        "11111111-1111-1111-1111-111111111111",
        "/x/my-home-dir",
        CodexAccountSource::ManagedByApp,
        None,
    );
    assert!(
        acct.display_name().ends_with("my-home-dir")
            || acct.display_name().contains("my-home-dir")
    );
    let _ = _path_is_trailing("/x/", '/');
}

#[test]
fn display_name_is_the_last_part_of_the_home() {
    let acct = account(
        "11111111-1111-1111-1111-111111111111",
        "/x/my-home-dir",
        CodexAccountSource::ManagedByApp,
        None,
    );
    assert_eq!(acct.display_name(), "my-home-dir");
    let mut named = acct.clone();
    named.email_hint = Some("user@example.com".into());
    assert_eq!(named.display_name(), "user@example.com");
    named.nickname = Some("  Work  ".into());
    assert_eq!(named.display_name(), "Work");
}

#[test]
fn trailing_separators_are_seen() {
    assert!(_path_is_trailing("/x/", '/'));
    assert!(!_path_is_trailing("/x", '/'));
}

#[test]
fn identifiers_are_compared_in_small_letters() {
    assert_eq!(normalize_identifier(Some("  ÄB@C  ")).as_deref(), Some("äb@c"));
    assert_eq!(normalize_identifier(Some("   ")), None);
    assert_eq!(normalize_identifier(None), None);
}

#[test]
fn sources_are_read_back() {
    assert_eq!(
        CodexAccountSource::from_raw("ambient"),
        Some(CodexAccountSource::Ambient)
    );
    assert_eq!(
        CodexAccountSource::from_raw("managedByApp"),
        Some(CodexAccountSource::ManagedByApp)
    );
    assert_eq!(CodexAccountSource::from_raw("other"), None);
}

#[test]
fn a_merge_with_itself_changes_nothing() {
    let mut a = account(
        "11111111-1111-1111-1111-111111111111",
        "/x/a",
        CodexAccountSource::ManagedByApp,
        Some("acct-1"),
    );
    let b = a.clone();
    a.merge_from(&b);
    assert_eq!(a.id, b.id);
    assert_eq!(a.provider_account_id, b.provider_account_id);
    assert_eq!(a.codex_home_path.raw, b.codex_home_path.raw);
    assert_eq!(a.updated_at, b.updated_at);
}

#[test]
fn an_ambient_account_takes_the_managed_home() {
    let mut ambient = account(
        "11111111-1111-1111-1111-111111111111",
        "/x/ambient",
        CodexAccountSource::Ambient,
        Some("acct-1"),
    );
    let managed = account(
        "22222222-2222-2222-2222-222222222222",
        "/x/managed",
        CodexAccountSource::ManagedByApp,
        Some("acct-1"),
    );
    ambient.merge_from(&managed);
    assert_eq!(ambient.source, CodexAccountSource::ManagedByApp);
    assert_eq!(ambient.codex_home_path.raw, "/x/managed");
    assert_eq!(
        ambient.id,
        Uuid::parse_str("11111111-1111-1111-1111-111111111111").unwrap().as_u128()
    );
}

#[test]
fn a_removed_account_is_known_again() {
    let a = account(
        "11111111-1111-1111-1111-111111111111",
        "/x/a",
        CodexAccountSource::ManagedByApp,
        Some("acct-1"),
    );
    let removed = RemovedAccountIdentity::from_account(&a);
    assert!(removed.matches(&a));
    let other = account(
        "22222222-2222-2222-2222-222222222222",
        "/y/b",
        CodexAccountSource::ManagedByApp,
        Some("acct-2"),
    );
    assert!(!removed.matches(&other));
}

#[test]
fn what_is_left_of_a_window() {
    assert_eq!(UsageWindowSnapshot::new(q(37.5), None, 18_000).remaining_percent(), q(62.5));
    assert_eq!(UsageWindowSnapshot::new(q(120.0), None, 18_000).remaining_percent(), q(0.0));
}

#[test]
fn accounts_are_sorted_by_what_they_can_do() {
    assert!(
        account_sort_priority(&snapshot(Some(true), 10.0, None))
            < account_sort_priority(&snapshot(Some(false), 10.0, None))
    );
    assert_eq!(snapshot(None, 10.0, Some(at(77))).next_reset_at(), Some(at(77)));
    assert_eq!(snapshot(None, 10.0, None).lowest_remaining_percent(), q(90.0));
}

#[test]
fn dates_without_an_offset_are_taken_as_utc() {
    assert!(contains_offset("2026-01-01T00:00:00+02:00"));
    assert!(!contains_offset("2026-01-01T00:00:00"));
    assert_eq!(datetime_text("2026-01-01T00:00:00").as_deref(), Some("2026-01-01T00:00:00Z"));
    assert_eq!(
        parse_datetime("2026-01-01T00:00:00").unwrap(),
        parse_datetime("2026-01-01T00:00:00Z").unwrap()
    );
    assert_eq!(parse_datetime("2026-01-01T02:00:00+02:00"), Some(at(1_767_225_600)));
    assert_eq!(parse_datetime("2026-01-01 02:00:00+02:00"), Some(at(1_767_225_600)));
    assert_eq!(parse_datetime("2026-01-01t02:00:00+02:00"), Some(at(1_767_225_600)));
    assert_eq!(parse_datetime("2026-01-01 00:00:00"), Some(at(1_767_225_600)));
    assert_eq!(parse_datetime("2025-12-31 22:00:00-02:00"), Some(at(1_767_225_600)));
}

#[test]
fn leap_seconds_are_written_and_read() {
    let leap = Moment { secs: 1_483_228_799, nanos: 1_250_000_000 };
    let text = format_datetime(Some(leap)).unwrap();
    assert_eq!(text, "2016-12-31T23:59:60.250Z");
    assert_eq!(parse_datetime(&text), Some(leap));
}

#[test]
fn a_home_knows_the_last_part_of_its_path() {
    let home = HomePath::resolve("/Homes/Codex");
    assert_eq!(home.raw, "/Homes/Codex");
    assert_eq!(home.file_name.as_deref(), Some("Codex"));
    assert_eq!(HomePath::resolve("/").file_name, None);
}

#[test]
fn a_written_date_is_read_back() {
    let t = at(1_767_225_600);
    let text = format_datetime(Some(t)).unwrap();
    assert_eq!(text, "2026-01-01T00:00:00Z");
    assert_eq!(parse_datetime(&text), Some(t));
    assert_eq!(format_datetime(None), None);
}

#[test]
fn doubles_are_taken_exactly() {
    assert_eq!(q(1.0).scaled, 1i128 << 64);
    assert_eq!(q(-0.5).scaled, -(1i128 << 63));
    assert_eq!(Quantity::from_double_bits(f64::NAN.to_bits()), None);
    assert_eq!(Quantity::from_double_bits(f64::INFINITY.to_bits()), None);
}

#[test]
fn quota_windows_are_counted() {
    let mut usage = snapshot(None, 10.0, None);
    assert!(usage.has_quota_windows());
    usage.primary_window = None;
    assert!(!usage.has_quota_windows());
}

#[test]
fn homes_are_compared_without_capitals() {
    let account = CodexAccount::new(
        1,
        None,
        None,
        None,
        None,
        HomePath::resolve("/Home/Codex"),
        CodexAccountSource::Ambient,
        utc_now(),
        utc_now(),
        None,
    );
    assert_eq!(account.standardized_home_path(), "/home/codex");
}

#[test]
fn homes_of_one_part_are_named_after_it() {
    let home = HomePath::resolve("Work.home");
    assert_eq!(home.file_name.as_deref(), Some("Work.home"));
    assert!(home.absolute.ends_with("Work.home") && home.absolute != "Work.home");
    assert_eq!(home.standardized, home.absolute.to_lowercase());
    assert_eq!(HomePath::resolve("..").file_name, None);
    let empty = HomePath::resolve("");
    assert_eq!((empty.absolute.as_str(), empty.file_name), ("", None));
}

#[test]
fn the_clock_is_past_its_beginning() {
    let now = utc_now();
    assert!(now.secs > 0 && now.nanos < 1_000_000_000);
}
