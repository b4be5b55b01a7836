use codexbar::claude::accounts::ClaudeAccount;
use codexbar::claude::tool::Tool;
use codexbar::codex_accounts::account_manager::CodexSwitchResult;
use codexbar::codex_accounts::models::{utc_now, CodexAccount, CodexAccountSource, HomePath};
use codexbar::locale::Texts;
use codexbar::quantity::Quantity;
use codexbar::settings::{current_language, toggle_provider, Settings, TrayIconMode};
use codexbar::locale::Language;
use codexbar::snapshot::{
    CostSnapshot, ProviderCatalogEntry, ProviderId, ProviderStateKind, ProviderUsageSnapshot,
    RateWindowSnapshot,
};
use codexbar::tray_bridge::{
    after_menu_event, handle_menu_event, monitor_at_point, native_menu_entry, next_promotion, resolve_menu_action,
    resolve_menu_target, resolve_menu_transition_dispatch, resolve_tray_anchor, MenuAction,
    MenuEvent, MenuStep, MenuTransitionDispatch, MonitorBounds, NativeEntry,
    ShellTransitionRequest, SurfaceMode, SurfaceTarget, TrayAnchor,
};
use codexbar::tray_menu::{
    add_account_menus, build_tray_menu, build_tray_menu_with, claude_accounts_menu,
    codex_accounts_menu, menu_contains, TrayMenuEntry,
};
use codexbar::tray_status::{
    build_tooltip, codex_lane_headline_window, display_metric_percent, headline_window,
    ordered_snapshot_refs, pick_tray_provider, plan_tray_icon, provider_status_label,
    selected_tray_percents, status_labels_for_settings, truncate_tooltip_text, StatusText,
};
use uuid::Uuid;

fn q(v: f64) -> Quantity {
    Quantity::from_double_bits(v.to_bits()).unwrap()
}

fn tool_id() -> String {
    format!("{:?}", ProviderId::Claude).to_lowercase()
}

fn tool_name() -> String {
    format!("{:?}", ProviderId::Claude)
}

fn tool() -> Tool {
    Tool { name: tool_name(), command: tool_id() }
}

fn texts(pairs: &[(&str, &str)]) -> Texts {
    Texts {
        entries: pairs.iter().map(|(k, v)| (k.to_string(), v.to_string())).collect(),
    }
}

fn english() -> Texts {
    texts(&[("TrayShowFloatBar", "Show Float Bar"), ("TrayStatusRowError", "error")])
}

fn sample_provider_catalog() -> Vec<ProviderCatalogEntry> {
    vec![
        ProviderCatalogEntry {
            id: "codex".into(),
            display_name: "Codex".into(),
            cookie_domain: None,
        },
        ProviderCatalogEntry {
            id: tool_id(),
            display_name: tool_name(),
            cookie_domain: None,
        },
    ]
}

fn both_enabled() -> Vec<String> {
    vec!["codex".to_string(), tool_id()]
}

fn settings() -> Settings {
    Settings {
        enabled_providers: both_enabled(),
        provider_display_order: both_enabled(),
        ui_language: Language::English,
        hide_personal_info: false,
        float_bar_enabled: false,
        tray_icon_mode: TrayIconMode::Single,
        menu_bar_shows_highest_usage: false,
        menu_bar_display_mode: "detailed".into(),
        menu_bar_shows_percent: false,
        show_as_used: true,
        hooks_enabled: false,
        show_notifications: true,
        predictive_pace_warning_enabled: false,
    }
}

fn window(used: f64) -> RateWindowSnapshot {
    let mut w = RateWindowSnapshot::unused();
    w.used_percent = q(used);
    w.remaining_percent = q(100.0 - used);
    w
}

fn fake_snapshot_with(
    id: &str,
    display: &str,
    used_percent: f64,
    secondary: Option<f64>,
    tertiary: Option<f64>,
) -> ProviderUsageSnapshot {
    ProviderUsageSnapshot {
        provider_id: id.into(),
        display_name: display.into(),
        primary: window(used_percent),
        secondary: secondary.map(window),
        model_specific: None,
        tertiary: tertiary.map(window),
        cost: None,
        plan_name: None,
        account_email: None,
        account_organization: None,
        source_label: String::new(),
        updated_at: "2025-01-01T00:00:00Z".into(),
        error: None,
        error_state: ProviderStateKind::Ready,
        fetch_duration_ms: None,
    }
}

fn fake_snapshot(id: &str, display: &str, used_percent: f64) -> ProviderUsageSnapshot {
    fake_snapshot_with(id, display, used_percent, None, None)
}

fn label(text: &str) -> StatusText {
    StatusText {
        monthly_plan: false,
        cost_amount: String::new(),
        compact: text.into(),
    }
}

#[test]
fn tray_menu_includes_about_and_provider_entries() {
    let menu = build_tray_menu(&sample_provider_catalog(), &vec![], &both_enabled(), &english());
    assert!(menu_contains(&menu, "about"));
    assert!(menu_contains(&menu, "toggle_provider:codex"));
    assert!(menu_contains(&menu, "quit"));
    assert!(!menu_contains(&menu, "missing"));
}

#[test]
fn claude_account_actions_are_distinct_from_codex_and_reject_empty_ids() {
    assert!(matches!(
        resolve_menu_action("add_claude_account"),
        Some(MenuAction::AddClaudeAccount)
    ));
    assert!(matches!(
        resolve_menu_action("save_claude_account"),
        Some(MenuAction::SaveClaudeAccount)
    ));
    assert!(matches!(
        resolve_menu_action("cancel_claude_login"),
        Some(MenuAction::CancelClaudeLogin)
    ));
    assert!(
        matches!(resolve_menu_action("switch_claude_account:a:org"), Some(MenuAction::SwitchClaudeAccount(id)) if id == "a:org")
    );
    assert!(resolve_menu_action("switch_claude_account:").is_none());
}

#[test]
fn toggle_float_bar_routes_to_toggle_action() {
    let action = resolve_menu_action("toggle_float_bar").expect("float bar action");
    assert!(matches!(action, MenuAction::ToggleFloatBar));
}

#[test]
fn settings_menu_routes_to_open_settings_action() {
    let action = resolve_menu_action("about").expect("about action");
    match action {
        MenuAction::OpenSettings(tab) => assert_eq!(tab, "about"),
        _ => panic!("expected OpenSettings for 'about'"),
    }

    let action = resolve_menu_action("settings").expect("settings action");
    match action {
        MenuAction::OpenSettings(tab) => assert_eq!(tab, "general"),
        _ => panic!("expected OpenSettings for 'settings'"),
    }
}

#[test]
fn provider_menu_routes_to_provider_popout_target() {
    let action = resolve_menu_target("provider:codex").expect("provider target");
    assert_eq!(action.mode, SurfaceMode::PopOut);
    assert_eq!(
        action.target,
        SurfaceTarget::Provider {
            provider_id: "codex".into()
        }
    );
}

#[test]
fn pop_out_opens_the_flyout_and_no_window() {
    let action = resolve_menu_action("pop_out").expect("pop_out action");
    assert!(matches!(action, MenuAction::OpenFlyout));
    assert!(resolve_menu_target("pop_out").is_none());
    let show_window = resolve_menu_target("show_panel").expect("show_panel target");
    assert_eq!(show_window.mode, SurfaceMode::PopOut);
}

#[test]
fn show_panel_menu_reopens_popout_dashboard_with_default_position_chain() {
    let request = resolve_menu_target("show_panel").expect("show_panel target");
    assert_eq!(request.mode, SurfaceMode::PopOut);
    assert_eq!(request.target, SurfaceTarget::Dashboard);

    let dispatch = resolve_menu_transition_dispatch(
        "show_panel",
        ShellTransitionRequest {
            mode: SurfaceMode::PopOut,
            target: SurfaceTarget::Dashboard,
            position: Some((320, 240)),
        },
    );

    match dispatch {
        MenuTransitionDispatch::Reopen(request) => {
            assert_eq!(request.mode, SurfaceMode::PopOut);
            assert_eq!(request.target, SurfaceTarget::Dashboard);
            assert_eq!(request.position, None);
        }
        MenuTransitionDispatch::Transition(_) => {
            panic!("show_panel should reopen via default PopOut positioning")
        }
    }
}

#[test]
fn non_show_panel_menu_keeps_explicit_position() {
    let dispatch = resolve_menu_transition_dispatch(
        "provider:codex",
        ShellTransitionRequest {
            mode: SurfaceMode::PopOut,
            target: SurfaceTarget::Provider {
                provider_id: "codex".into(),
            },
            position: Some((320, 240)),
        },
    );

    match dispatch {
        MenuTransitionDispatch::Transition(request) => {
            assert_eq!(request.mode, SurfaceMode::PopOut);
            assert_eq!(
                request.target,
                SurfaceTarget::Provider {
                    provider_id: "codex".into()
                }
            );
            assert_eq!(request.position, Some((320, 240)));
        }
        MenuTransitionDispatch::Reopen(_) => {
            panic!("non-show-panel actions should use direct transitions")
        }
    }
}

fn scaled(x: f64, y: f64, w: f64, h: f64, scale: f64) -> TrayAnchor {
    TrayAnchor {
        x: (x * scale).round() as i32,
        y: (y * scale).round() as i32,
        width: (w * scale).round().max(1.0) as u32,
        height: (h * scale).round().max(1.0) as u32,
    }
}

#[test]
fn logical_tray_anchor_uses_click_monitor_scale() {
    let monitors = vec![
        MonitorBounds {
            physical_x: 0,
            physical_y: 0,
            physical_width: 1920,
            physical_height: 1080,
        },
        MonitorBounds {
            physical_x: 1920,
            physical_y: 0,
            physical_width: 2560,
            physical_height: 1440,
        },
    ];
    let scales = [1.0, 2.0];
    let clicked = monitor_at_point(q(1510.0), q(500.0), &monitors);
    let anchor = resolve_tray_anchor(
        None,
        None,
        clicked.map(|k| scaled(1500.0, 500.0, 12.0, 12.0, scales[k])),
    )
    .expect("matching click monitor scale");

    assert_eq!(anchor.x, 1500);
    assert_eq!(anchor.y, 500);
    assert_eq!(anchor.width, 12);
    assert_eq!(anchor.height, 12);
}

#[test]
fn logical_tray_anchor_skips_conversion_without_click_monitor() {
    let monitors = vec![MonitorBounds {
        physical_x: 0,
        physical_y: 0,
        physical_width: 1920,
        physical_height: 1080,
    }];
    let clicked = monitor_at_point(q(2500.0), q(500.0), &monitors);
    let anchor = resolve_tray_anchor(
        None,
        None,
        clicked.map(|_| scaled(1500.0, 500.0, 12.0, 12.0, 1.0)),
    );
    assert!(anchor.is_none());
}

#[test]
fn physical_parts_of_an_anchor_are_kept() {
    let t = scaled(1.0, 2.0, 3.0, 4.0, 2.0);
    assert_eq!(
        resolve_tray_anchor(Some((7, 8)), Some((9, 10)), None),
        Some(TrayAnchor { x: 7, y: 8, width: 9, height: 10 })
    );
    assert_eq!(
        resolve_tray_anchor(Some((7, 8)), None, Some(t)),
        Some(TrayAnchor { x: 7, y: 8, width: 6, height: 8 })
    );
    assert_eq!(
        resolve_tray_anchor(None, Some((9, 10)), Some(t)),
        Some(TrayAnchor { x: 2, y: 4, width: 9, height: 10 })
    );
}

#[test]
fn pick_tray_provider_highest_picks_max_primary() {
    let a = fake_snapshot("codex", "Codex", 30.0);
    let b = fake_snapshot(&tool_id(), &tool_name(), 72.5);
    let c = fake_snapshot("gemini", "Gemini", 50.0);
    let refs: Vec<&ProviderUsageSnapshot> = vec![&a, &b, &c];

    let picked = pick_tray_provider(&refs, /* prefer_highest = */ true)
        .expect("highest mode should pick a provider");
    assert_eq!(picked.provider_id, tool_id());
}

#[test]
fn pick_tray_provider_first_preserves_catalog_order() {
    let a = fake_snapshot("codex", "Codex", 30.0);
    let b = fake_snapshot(&tool_id(), &tool_name(), 72.5);
    let refs: Vec<&ProviderUsageSnapshot> = vec![&a, &b];

    let picked = pick_tray_provider(&refs, /* prefer_highest = */ false)
        .expect("non-highest mode should still pick the first entry");
    assert_eq!(picked.provider_id, "codex");
}

#[test]
fn pick_tray_provider_none_when_empty() {
    let refs: Vec<&ProviderUsageSnapshot> = vec![];
    assert!(pick_tray_provider(&refs, true).is_none());
    assert!(pick_tray_provider(&refs, false).is_none());
}

#[test]
fn of_equally_used_providers_the_last_is_picked() {
    let a = fake_snapshot("a", "A", 30.0);
    let b = fake_snapshot("b", "B", 30.0);
    let refs: Vec<&ProviderUsageSnapshot> = vec![&a, &b];
    assert_eq!(pick_tray_provider(&refs, true).unwrap().provider_id, "b");
}

#[test]
fn status_labels_per_provider_mode_lists_each_healthy_provider() {
    let mut settings = settings();
    settings.tray_icon_mode = TrayIconMode::PerProvider;
    settings.provider_display_order = vec![tool_id(), "codex".to_string()];
    let snapshots = vec![
        fake_snapshot("codex", "Codex", 30.0),
        fake_snapshot(&tool_id(), &tool_name(), 72.0),
    ];

    let labels =
        status_labels_for_settings(&settings, &snapshots, &vec![label("30%"), label("72%")]);

    assert_eq!(
        labels,
        vec![
            (tool_id(), format!("{} 72%", tool_name())),
            ("codex".to_string(), "Codex 30%".to_string()),
        ]
    );
}

#[test]
fn status_labels_single_mode_collapses_to_selected_provider() {
    let mut settings = settings();
    settings.menu_bar_shows_highest_usage = true;
    let snapshots = vec![
        fake_snapshot("codex", "Codex", 30.0),
        fake_snapshot(&tool_id(), &tool_name(), 72.0),
    ];

    let labels =
        status_labels_for_settings(&settings, &snapshots, &vec![label("30%"), label("72%")]);

    assert_eq!(
        labels,
        vec![("status_summary".to_string(), format!("{} 72%", tool_name()))]
    );
}

#[test]
fn failed_providers_have_no_status_row() {
    let mut settings = settings();
    settings.tray_icon_mode = TrayIconMode::PerProvider;
    let mut broken = fake_snapshot("codex", "Codex", 30.0);
    broken.error = Some("down".into());
    let labels = status_labels_for_settings(&settings, &vec![broken], &vec![label("30%")]);
    assert!(labels.is_empty());
}

#[test]
fn unordered_providers_come_last_by_name() {
    let snapshots = vec![
        fake_snapshot("z", "Zed", 1.0),
        fake_snapshot("a", "Alpha", 1.0),
        fake_snapshot("codex", "Codex", 1.0),
    ];
    assert_eq!(ordered_snapshot_refs(&vec!["codex".to_string()], &snapshots), vec![2, 1, 0]);
}

#[test]
fn monthly_plans_show_what_they_cost() {
    let mut s = fake_snapshot("mistral", "Mistral", 10.0);
    s.cost = Some(CostSnapshot {
        used: q(3.5),
        limit: None,
        currency_code: "USD".into(),
        period: "monthly".into(),
        formatted_used: "$3.50".into(),
        formatted_limit: None,
    });
    let mut text = label("10%");
    text.monthly_plan = true;
    text.cost_amount = "3.5 USD".into();
    assert_eq!(provider_status_label(&s, &text).1, "Mistral $3.50");
    s.cost.as_mut().unwrap().formatted_used = String::new();
    assert_eq!(provider_status_label(&s, &text).1, "Mistral 3.5 USD");
    s.cost = None;
    assert_eq!(provider_status_label(&s, &text).1, "Mistral 10%");
}

#[test]
fn tooltip_uses_compact_status_labels() {
    let first = fake_snapshot(&tool_id(), &tool_name(), 13.0);
    let codex = fake_snapshot("codex", "Codex", 8.0);

    let tooltip = build_tooltip(
        &vec![first, codex],
        &vec![
            "13% • Resets in 2h 05m".to_string(),
            "8% • Resets in 4h 10m".to_string(),
        ],
        &english(),
    );

    assert_eq!(
        tooltip,
        format!(
            "CodexBar\n{}: 13% • Resets in 2h 05m\nCodex: 8% • Resets in 4h 10m",
            tool_name()
        )
    );
}

#[test]
fn tooltip_skips_informational_codex_primary() {
    let mut codex = fake_snapshot_with("codex", "Codex", 0.0, Some(16.0), None);
    codex.primary.is_informational = true;
    codex.primary.reset_description = Some("No active 5h session".to_string());
    codex.secondary.as_mut().unwrap().reset_description = Some("3d 17h".to_string());

    let headline = headline_window(&codex);
    assert_eq!(headline.used_percent, q(16.0));
    let shown = format!("16% • Resets in {}", headline.reset_description.as_deref().unwrap());
    let tooltip = build_tooltip(&vec![codex], &vec![shown], &english());

    assert_eq!(tooltip, "CodexBar\nCodex: 16% • Resets in 3d 17h");
}

#[test]
fn tooltip_truncates_long_provider_lines() {
    let first = fake_snapshot(&tool_id(), &tool_name(), 13.0);
    let tooltip = build_tooltip(
        &vec![first],
        &vec!["13% • Resets in Jun 10 at 3:00PM with extra noisy suffix".to_string()],
        &english(),
    );

    let line = tooltip.lines().nth(1).expect("provider tooltip line");
    assert!(line.starts_with(&format!("{}: 13% • Resets in Jun 10 at 3:00PM", tool_name())));
    assert!(line.ends_with("..."));
    assert!(line.chars().count() <= 53);
}

#[test]
fn japanese_tooltip_localizes_error_status() {
    let mut first = fake_snapshot(&tool_id(), &tool_name(), 13.0);
    first.error = Some("network timeout".to_string());

    let tooltip = build_tooltip(
        &vec![first],
        &vec![String::new()],
        &texts(&[("TrayStatusRowError", "エラー")]),
    );

    assert!(tooltip.contains("エラー"), "{tooltip}");
    assert!(!tooltip.contains(": error ("), "{tooltip}");
}

#[test]
fn a_tooltip_without_providers_is_the_application() {
    assert_eq!(build_tooltip(&vec![], &vec![], &english()), "CodexBar Desktop");
    assert_eq!(truncate_tooltip_text("äöü", 2), "äö...");
    assert_eq!(truncate_tooltip_text("äöü", 3), "äöü");
}

#[test]
fn selected_tray_percent_respects_remaining_display_mode() {
    let (primary, secondary) = selected_tray_percents(q(15.0), Some(q(20.0)), false);
    assert_eq!(primary, q(85.0));
    assert_eq!(secondary, Some(q(80.0)));
}

#[test]
fn meters_stay_between_nothing_and_everything() {
    assert_eq!(display_metric_percent(q(130.0), true), q(100.0));
    assert_eq!(display_metric_percent(q(130.0), false), q(0.0));
    assert_eq!(display_metric_percent(q(-5.0), true), q(0.0));
}

#[test]
fn an_icon_shows_errors_where_nobody_is_well() {
    let mut broken = fake_snapshot("codex", "Codex", 30.0);
    broken.error = Some("down".into());
    let plan = plan_tray_icon(&settings(), &vec![broken], &vec![(q(30.0), Some(q(40.0)))]);
    assert!(plan.all_error);
    assert_eq!(plan.session, q(30.0));
    assert!(plan.weekly.is_none());
    let down = |id: &str| {
        let mut snapshot = fake_snapshot(id, id, 0.0);
        snapshot.error = Some("down".into());
        snapshot
    };
    let shares = vec![(q(12.0), None), (q(71.5), Some(q(99.0))), (q(130.0), None)];
    let broken = vec![down("codex"), down("cursor"), down("gemini")];
    assert_eq!(plan_tray_icon(&settings(), &broken, &shares).session, q(100.0));
    let two = vec![down("codex"), down("cursor")];
    assert_eq!(plan_tray_icon(&settings(), &two, &shares[..2].to_vec()).session, q(71.5));
    assert_eq!(plan_tray_icon(&settings(), &vec![], &vec![]).session, q(0.0));
    let good = fake_snapshot("codex", "Codex", 30.0);
    let mut percent = settings();
    percent.menu_bar_shows_percent = true;
    let plan = plan_tray_icon(&percent, &vec![good], &vec![(q(30.0), Some(q(40.0)))]);
    assert!(plan.as_percent && !plan.all_error);
    assert_eq!((plan.session, plan.weekly), (q(30.0), Some(q(40.0))));
}

#[test]
fn f5_headline_prefers_non_informational_primary() {
    let snapshot = fake_snapshot_with("codex", "Codex", 50.0, Some(20.0), Some(30.0));
    assert_eq!(codex_lane_headline_window(&snapshot).used_percent, q(50.0));
}

#[test]
fn f5_headline_falls_back_to_secondary_when_primary_informational() {
    let mut snapshot = fake_snapshot_with("codex", "Codex", 0.0, Some(25.0), Some(30.0));
    snapshot.primary.is_informational = true;
    assert_eq!(codex_lane_headline_window(&snapshot).used_percent, q(25.0));
}

#[test]
fn f5_headline_falls_back_to_tertiary_when_primary_and_secondary_informational() {
    let mut snapshot = fake_snapshot_with("codex", "Codex", 0.0, Some(0.0), Some(35.0));
    snapshot.primary.is_informational = true;
    snapshot.secondary.as_mut().unwrap().is_informational = true;
    assert_eq!(codex_lane_headline_window(&snapshot).used_percent, q(35.0));
}

#[test]
fn f5_headline_returns_primary_when_all_informational() {
    let mut snapshot = fake_snapshot_with("codex", "Codex", 0.0, Some(0.0), Some(0.0));
    snapshot.primary.is_informational = true;
    if let Some(sec) = &mut snapshot.secondary {
        sec.is_informational = true;
    }
    if let Some(ter) = &mut snapshot.tertiary {
        ter.is_informational = true;
    }
    assert!(codex_lane_headline_window(&snapshot).is_informational);
}

fn codex_account(name: &str) -> CodexAccount {
    CodexAccount::new(
        Uuid::new_v4().as_u128(),
        Some(name.into()),
        None,
        None,
        Some(name.into()),
        HomePath::resolve(name),
        CodexAccountSource::ManagedByApp,
        utc_now(),
        utc_now(),
        None,
    )
}

#[test]
fn codex_accounts_can_be_switched_or_added_from_tray() {
    let first = codex_account("Personal");
    let second = codex_account("Work");
    let menu = codex_accounts_menu(
        &vec![first.clone(), second.clone()],
        Some(&first),
        &english(),
        false,
        &vec![],
    );
    assert_eq!(menu.children[0].checked, Some(true));
    assert!(menu.children[0].disabled);
    assert_eq!(
        menu.children[1].id.as_deref(),
        Some(format!("switch_codex_account:{}", Uuid::from_u128(second.id)).as_str())
    );
    assert_eq!(menu.children[1].checked, Some(false));
    assert!(!menu.children[1].disabled);
    assert!(menu_contains(&menu.children, "add_codex_account"));
    let empty = codex_accounts_menu(&vec![], None, &english(), false, &vec![]);
    assert!(menu_contains(&empty.children, "add_codex_account"));
    let mut email_account = second;
    email_account.nickname = None;
    email_account.email_hint = Some("private@example.com".into());
    let private = codex_accounts_menu(
        &vec![email_account.clone()],
        None,
        &english(),
        true,
        &vec!["p•••@example.com".to_string()],
    );
    assert!(!private.children[0].label.contains("private@example.com"));
    let visible = codex_accounts_menu(&vec![email_account], None, &english(), false, &vec![]);
    assert_eq!(visible.children[0].label, "private@example.com");
}

#[test]
fn the_entry_of_a_codex_account_switches_to_it() {
    let account = codex_account("Work");
    let id = account.id;
    let menu = codex_accounts_menu(&vec![account], None, &english(), false, &vec![]);
    match resolve_menu_action(menu.children[0].id.as_deref().unwrap()) {
        Some(MenuAction::SwitchCodexAccount(text)) => {
            assert_eq!(Uuid::parse_str(&text).unwrap().as_u128(), id)
        }
        other => panic!("unexpected {other:?}"),
    }
    assert!(resolve_menu_action("switch_codex_account:not-an-id").is_none());
}

fn saved_account(id: &str, active: bool, saved: bool) -> ClaudeAccount {
    ClaudeAccount {
        id: id.into(),
        email: "a@example.com".into(),
        organization: None,
        plan: None,
        is_active: active,
        is_saved: saved,
    }
}

#[test]
fn claude_menu_checks_current_account_and_routes_saved_accounts() {
    let current = saved_account("a:org", true, false);
    let saved = saved_account("b:org", false, true);
    let menu = claude_accounts_menu(&vec![current, saved], &english(), false, &vec![]);
    assert_eq!(menu.id.as_deref(), Some("claude_accounts"));
    assert_eq!(menu.children[0].checked, Some(true));
    assert!(menu.children[0].disabled);
    assert_eq!(
        menu.children[1].id.as_deref(),
        Some("switch_claude_account:b:org")
    );
    assert!(!menu.children[1].disabled);
    assert!(menu_contains(&menu.children, "add_claude_account"));
    assert!(menu_contains(
        &claude_accounts_menu(&vec![], &english(), false, &vec![]).children,
        "add_claude_account"
    ));
}

#[test]
fn accounts_are_labelled_with_their_organization() {
    let mut account = saved_account("a:org", false, true);
    account.organization = Some("Acme".into());
    let menu = claude_accounts_menu(&vec![account], &english(), false, &vec![]);
    assert_eq!(menu.children[0].label, "a@example.com (Acme)");
}

#[test]
fn check_for_updates_item_is_present() {
    let menu = build_tray_menu(&sample_provider_catalog(), &vec![], &both_enabled(), &english());
    assert!(menu_contains(&menu, "check_for_updates"));
}

fn entry<'a>(menu: &'a [TrayMenuEntry], id: &str) -> &'a TrayMenuEntry {
    menu.iter().find(|e| e.id.as_deref() == Some(id)).expect("entry")
}

#[test]
fn provider_check_items_reflect_enabled_state() {
    let menu =
        build_tray_menu(&sample_provider_catalog(), &vec![], &vec![tool_id()], &english());
    let providers = entry(&menu, "providers");
    let on = entry(&providers.children, &format!("toggle_provider:{}", tool_id()));
    let off = entry(&providers.children, "toggle_provider:codex");
    assert_eq!(on.checked, Some(true));
    assert_eq!(off.checked, Some(false), "Codex should be unchecked");
}

#[test]
fn float_bar_toggle_reflects_state() {
    let menu_on = build_tray_menu_with(
        &sample_provider_catalog(),
        &vec![],
        &both_enabled(),
        /* float_bar_enabled = */ true,
        &english(),
    );
    let toggle = entry(&menu_on, "toggle_float_bar");
    assert_eq!(toggle.checked, Some(true));
    assert_eq!(toggle.label, "Show Float Bar");

    let menu_off = build_tray_menu_with(
        &sample_provider_catalog(),
        &vec![],
        &both_enabled(),
        /* float_bar_enabled = */ false,
        &english(),
    );
    assert_eq!(entry(&menu_off, "toggle_float_bar").checked, Some(false));
}

#[test]
fn tray_menu_static_labels_follow_language_but_provider_names_stay_raw() {
    let japanese = texts(&[
        ("TrayRefreshAll", "すべて更新"),
        ("TrayShowWindow", "ウィンドウを表示"),
        ("TraySettings", "設定..."),
        ("MenuQuit", "終了"),
    ]);
    let menu = build_tray_menu_with(
        &sample_provider_catalog(),
        &vec![],
        &both_enabled(),
        false,
        &japanese,
    );
    assert_eq!(entry(&menu, "refresh").label, "すべて更新");
    assert_eq!(entry(&menu, "show_panel").label, "ウィンドウを表示");
    assert_eq!(entry(&menu, "settings").label, "設定...");
    assert_eq!(entry(&menu, "quit").label, "終了");

    let provider_labels: Vec<String> = entry(&menu, "providers")
        .children
        .iter()
        .map(|e| e.label.clone())
        .collect();
    assert_eq!(provider_labels, vec!["Codex".to_string(), tool_name()]);
}

#[test]
fn status_rows_appear_at_top_with_separator() {
    let labels = vec![
        (tool_id(), format!("{} 60%", tool_name())),
        ("codex".to_string(), "Codex 30%".to_string()),
    ];
    let menu = build_tray_menu(&sample_provider_catalog(), &labels, &both_enabled(), &english());
    // First two items should be disabled status rows.
    assert_eq!(menu[0].id, Some(format!("status_{}", tool_id())));
    assert!(menu[0].disabled);
    assert_eq!(menu[1].id.as_deref(), Some("status_codex"));
    assert!(menu[1].disabled);
    // Third item should be a separator.
    assert!(menu[2].is_separator);
}

fn assert_clicks_act(menu: &[TrayMenuEntry]) -> usize {
    let mut clicks = 0;
    for entry in menu {
        let enabled = match native_menu_entry(entry) {
            NativeEntry::Item { enabled } => enabled,
            NativeEntry::CheckItem { enabled, .. } => enabled,
            _ => false,
        };
        if enabled {
            clicks += 1;
            assert!(resolve_menu_action(entry.id.as_deref().unwrap()).is_some(), "{entry:?}");
        }
        clicks += assert_clicks_act(&entry.children);
    }
    clicks
}

#[test]
fn every_entry_that_can_be_clicked_acts() {
    let labels = vec![("codex".to_string(), "Codex 30%".to_string())];
    let menu = build_tray_menu(&sample_provider_catalog(), &labels, &both_enabled(), &english());
    let codex = vec![codex_account("Personal"), codex_account("Work")];
    let saved = vec![saved_account("one", true, true), saved_account("two", false, true)];
    let whole = add_account_menus(
        menu,
        codex_accounts_menu(&codex, Some(&codex[0]), &english(), false, &vec![]),
        claude_accounts_menu(&saved, &english(), false, &vec![]),
    );
    let fixed = 8 + 1 + 3;
    let accounts = 1 + 1;
    assert_eq!(assert_clicks_act(&whole), fixed + accounts + sample_provider_catalog().len());
}

#[test]
fn accounts_stand_on_top_of_the_menu() {
    let menu = build_tray_menu(&vec![], &vec![], &vec![], &english());
    let n = menu.len();
    let whole = add_account_menus(
        menu,
        codex_accounts_menu(&vec![], None, &english(), false, &vec![]),
        claude_accounts_menu(&vec![], &english(), false, &vec![]),
    );
    assert_eq!(whole.len(), n + 2);
    assert_eq!(whole[0].id.as_deref(), Some("codex_accounts"));
    assert_eq!(whole[1].id.as_deref(), Some("claude_accounts"));
    assert_eq!(whole[2].id.as_deref(), Some("refresh"));
    assert_eq!(native_menu_entry(&whole[0]), NativeEntry::Submenu);
    assert_eq!(native_menu_entry(&whole[2]), NativeEntry::Item { enabled: true });
    assert_eq!(native_menu_entry(&TrayMenuEntry::separator()), NativeEntry::Separator);
}

#[test]
fn clicks_set_off_their_steps_in_order() {
    let steps = handle_menu_event("toggle_provider:codex");
    assert!(matches!(&steps[0], MenuStep::ToggleProvider(id) if id == "codex"));
    assert!(matches!(steps[1], MenuStep::NotifySettingsChanged));
    assert!(matches!(steps[2], MenuStep::RebuildMenu));
    assert!(handle_menu_event("status_codex").is_empty());
    assert!(matches!(handle_menu_event("quit")[0], MenuStep::Quit));
    assert!(matches!(handle_menu_event("pop_out")[0], MenuStep::NoteMenuOpen));
}

#[test]
fn a_restart_is_asked_for_before_it_happens() {
    let switched = |restore: Option<&str>| CodexSwitchResult {
        materialized_account: None,
        backup_path: None,
        ambient_account: None,
        desktop_session_backup_path: Some("/kept".into()),
        desktop_session_restore_path: restore.map(Into::into),
        desktop_session_restore_exists: false,
    };
    let asked = after_menu_event(&tool(), MenuEvent::CodexSwitched(Ok(switched(Some("/new")))));
    let Some(MenuStep::AskRestart(session)) = asked else { panic!("no question") };
    let yes = MenuEvent::RestartAnswered { yes: true, session };
    let Some(MenuStep::RestartDesktop(session)) = after_menu_event(&tool(), yes) else {
        panic!("no restart")
    };
    assert_eq!(session.backup_path.as_deref(), Some("/kept"));
    assert_eq!(session.restore_path.as_deref(), Some("/new"));
    let no = MenuEvent::RestartAnswered { yes: false, session };
    assert!(after_menu_event(&tool(), no).is_none());
    match after_menu_event(&tool(), MenuEvent::CodexSwitched(Ok(switched(None)))) {
        Some(MenuStep::ShowMessage { title, message }) => {
            assert_eq!(title, "Codex Accounts");
            assert_eq!(message, "Codex account switched.");
        }
        other => panic!("unexpected {other:?}"),
    }
}

#[test]
fn outcomes_are_told_under_the_title_of_the_tool() {
    match after_menu_event(&tool(), MenuEvent::ClaudeSaved(Ok(()))) {
        Some(MenuStep::ShowMessage { title, message }) => {
            assert_eq!(title, format!("{} Code accounts", tool_name()));
            assert_eq!(message, format!("Current {} Code account saved.", tool_name()));
        }
        other => panic!("unexpected {other:?}"),
    }
    match after_menu_event(&tool(), MenuEvent::ClaudeAdded(Err("no".into()))) {
        Some(MenuStep::ShowMessage { message, .. }) => assert_eq!(message, "no"),
        other => panic!("unexpected {other:?}"),
    }
}

#[test]
fn a_provider_toggled_twice_is_as_before() {
    let mut enabled = both_enabled();
    toggle_provider(&mut enabled, "codex".to_string());
    assert_eq!(enabled, vec![tool_id()]);
    toggle_provider(&mut enabled, "codex".to_string());
    enabled.sort();
    let mut before = both_enabled();
    before.sort();
    assert_eq!(enabled, before);
}

#[test]
fn the_language_is_the_chosen_one() {
    let mut s = settings();
    assert_eq!(current_language(&s), Language::English);
    s.ui_language = Language::Turkish;
    assert_eq!(current_language(&s), Language::Turkish);
}

#[test]
fn the_tray_icon_is_promoted_a_few_times() {
    let waits: Vec<Option<u64>> = (0..5).map(|attempt| next_promotion(true, attempt)).collect();
    assert_eq!(waits, vec![Some(1), Some(3), Some(8), None, None]);
    assert_eq!(next_promotion(false, 0), None);
}
