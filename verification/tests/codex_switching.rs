use base64::engine::general_purpose::{STANDARD, URL_SAFE_NO_PAD};
use base64::Engine;
use codexbar::codex_accounts::account_manager::{
    backup_file_name, build_discovered_account, candidate_account, check_removal,
    discover_account, find_match, login_error, looks_like_uuid, managed_home_key, rewrite_state,
    switch_steps, synchronize_active_copy, timestamp_slug_at, updated_creator_id,
    CodexAccountManager, CodexAccountManagerError, CopyPlan, HomeEntry, SwitchStep,
};
use codexbar::codex_accounts::api::{AuthBackedIdentity, CodexApiError, FileRead};
use codexbar::codex_accounts::codex_desktop::{
    build_restart_command, build_restart_script, encode_powershell_script,
    launch_hidden_powershell, powershell_literal_path, powershell_path_or_null,
    powershell_string_array, restart_log_path, restart_script_path, CodexDesktopControlError,
    RestartRun, DEFAULT_RESTART_DELAY_MS,
};
use codexbar::codex_accounts::fetch_lanes::{
    home_fetch_steps, plan_fetch, HomeStep, LaneTable,
};
use codexbar::codex_accounts::login_runner::{
    combine_output, packaged_binary, path_candidates, versioned_binaries, wait_step,
    CodexLoginOutcome, CodexLoginRunner, LoginRun, WaitStep,
};
use codexbar::codex_accounts::models::{utc_now, CodexAccount, CodexAccountSource, HomePath};
use codexbar::json::read_json;
use codexbar::moment::Moment;
use uuid::Uuid;

const OLD: &str = "1ea93d04-5c50-42e3-857b-3db850785967";
const NEW: &str = "83c5ae92-f5ee-41f8-9528-199110d1d0f9";

fn at(secs: i64) -> Moment {
    Moment { secs, nanos: 0 }
}

/// A file of credentials that carries a token with the identity of an account.
fn auth(email: &str, account_id: &str) -> String {
    let payload = format!(
        r#"{{"email":"{email}","sub":"auth0|{account_id}","https://api.openai.com/auth":{{"chatgpt_plan_type":"team","chatgpt_account_id":"{account_id}"}}}}"#
    );
    let encoded = URL_SAFE_NO_PAD.encode(payload);
    format!(
        r#"{{"tokens":{{"access_token":"access-{account_id}","refresh_token":"refresh-{account_id}","id_token":"header.{encoded}.signature","account_id":"{account_id}"}},"last_refresh":"2026-04-23T00:00:00Z"}}"#
    )
}

fn entry(home: &str, email: &str, account_id: &str) -> HomeEntry {
    HomeEntry {
        home: HomePath::resolve(home),
        auth_file: FileRead::Contents(auth(email, account_id)),
        discovered_at: at(100),
    }
}

fn make_account(home: &str, email: &str, account_id: &str) -> CodexAccount {
    CodexAccount::new(
        Uuid::new_v4().as_u128(),
        None,
        Some(email.to_string()),
        Some(format!("auth0|{account_id}")),
        Some(account_id.to_string()),
        HomePath::resolve(home),
        CodexAccountSource::ManagedByApp,
        utc_now(),
        utc_now(),
        Some(utc_now()),
    )
}

#[test]
fn remove_managed_account_removes_duplicate_homes_for_same_provider() {
    let entries = vec![
        entry("/app/managed-homes/first", "user@example.com", NEW),
        entry("/app/managed-homes/duplicate", "user@example.com", NEW),
        entry("/app/managed-homes/other", "user@example.com", "different-provider"),
    ];
    let account = make_account("/app/managed-homes/first", "user@example.com", NEW);
    let manager = CodexAccountManager::new();
    assert!(manager.may_remove_files(&account));
    let homes = manager.managed_home_paths_matching(&account, &entries, &vec![1, 2, 3]);
    let raw: Vec<&str> = homes.iter().map(|h| h.raw.as_str()).collect();
    assert!(raw.contains(&"/app/managed-homes/first"));
    assert!(raw.contains(&"/app/managed-homes/duplicate"));
    assert!(!raw.contains(&"/app/managed-homes/other"));
}

#[test]
fn switch_active_account_updates_global_state_creator_id() {
    let manager = CodexAccountManager::new();
    let target = make_account("/app/managed-homes/target", "new@example.com", NEW);
    let ambient_entry = entry("/app/.codex", "old@example.com", OLD);
    let ambient = manager
        .discover_ambient_account(&ambient_entry, &vec![target.clone()], 9)
        .unwrap();
    assert_eq!(ambient.provider_account_id.as_deref(), Some(OLD));

    let needs_copy = manager.plan_switch(&target, true, Some(&ambient)).unwrap();
    assert!(needs_copy);
    let home = HomePath::resolve("/app/managed-homes/kept");
    let materialized = manager
        .materialize_as_managed(&ambient, true, &home, at(200))
        .unwrap();
    assert_eq!(materialized.provider_account_id.as_deref(), Some(OLD));

    let file = FileRead::Contents(auth("new@example.com", NEW));
    let id = manager.target_account_id(&target, &file).unwrap();
    assert_eq!(id.as_deref(), Some(NEW));
    let names = manager.sync_ambient_global_state(id.as_deref());
    assert_eq!(names, vec![".codex-global-state.json", ".codex-global-state.json.bak"]);

    let state = format!(
        r#"{{"electron-persisted-atom-state":{{"environment":{{"creator_id":"user-e9H3MsspGTF7UZJ8uaXuML55__{OLD}"}}}}}}"#
    );
    let written = manager.rewrite_creator_id(&state, Some(OLD), NEW).unwrap();
    let payload: serde_json::Value = serde_json::from_str(&written).unwrap();
    assert_eq!(
        payload["electron-persisted-atom-state"]["environment"]["creator_id"],
        format!("user-e9H3MsspGTF7UZJ8uaXuML55__{NEW}")
    );

    let result = manager.switch_result(
        Some(materialized),
        Some("/app/auth-backups/b.json".into()),
        Some(make_account("/app/.codex", "new@example.com", NEW)),
        true,
        Some("/app/managed-homes/kept/desktop-session".into()),
        "/app/managed-homes/target/desktop-session".into(),
        true,
    );
    assert_eq!(
        result.ambient_account.unwrap().provider_account_id.as_deref(),
        Some(NEW)
    );
    assert_eq!(
        result.desktop_session_backup_path.as_deref(),
        Some("/app/managed-homes/kept/desktop-session")
    );
    assert_eq!(
        result.desktop_session_restore_path.as_deref(),
        Some("/app/managed-homes/target/desktop-session")
    );
    assert!(result.desktop_session_restore_exists);
}

#[test]
fn a_creator_is_replaced_only_where_it_is_known() {
    assert_eq!(updated_creator_id(Some("u__a"), Some("a"), "b").as_deref(), Some("u__b"));
    assert_eq!(updated_creator_id(Some("u__x"), Some("a"), "b"), None);
    assert_eq!(updated_creator_id(None, Some("a"), "b"), None);
    let mixed = format!("u__{OLD}");
    assert_eq!(updated_creator_id(Some(&mixed), None, "b").as_deref(), Some("u__b"));
    assert!(rewrite_state(&read_json("{}").unwrap(), None, "b").is_none());
    assert!(looks_like_uuid(OLD));
    assert!(!looks_like_uuid("user"));
}

#[test]
fn discovered_accounts_keep_what_is_known() {
    let mut known = make_account("/app/managed-homes/first", "old@example.com", NEW);
    known.nickname = Some("Mine".into());
    let existing = vec![known.clone()];
    let found = discover_account(
        &entry("/app/managed-homes/first", "new@example.com", NEW),
        &existing,
        CodexAccountSource::ManagedByApp,
        77,
    )
    .unwrap();
    assert_eq!(found.id, known.id);
    assert_eq!(found.nickname.as_deref(), Some("Mine"));
    assert_eq!(found.email_hint.as_deref(), Some("new@example.com"));
    let fresh = discover_account(
        &entry("/app/managed-homes/second", "x@example.com", OLD),
        &existing,
        CodexAccountSource::ManagedByApp,
        77,
    )
    .unwrap();
    assert_eq!(fresh.id, 77);
    let missing = HomeEntry {
        home: HomePath::resolve("/app/managed-homes/third"),
        auth_file: FileRead::NotFound,
        discovered_at: at(0),
    };
    assert!(discover_account(&missing, &existing, CodexAccountSource::ManagedByApp, 1).is_none());
    assert_eq!(find_match(&existing, &known), Some(0));
}

#[test]
fn candidates_have_ids_of_their_own() {
    let identity = AuthBackedIdentity {
        email: Some("a@b.c".into()),
        auth_subject: None,
        plan: None,
        provider_account_id: Some(NEW.into()),
    };
    let home = HomePath::resolve("/app/managed-homes/first");
    let a = candidate_account(&identity, &home, CodexAccountSource::ManagedByApp);
    let b = candidate_account(&identity, &home, CodexAccountSource::ManagedByApp);
    assert_ne!(a.id, b.id);
    assert!(a.matches(&b));
    let built = build_discovered_account(
        None,
        &identity,
        &home,
        CodexAccountSource::ManagedByApp,
        at(5),
        3,
    );
    assert_eq!(built.id, 3);
}

#[test]
fn sign_ins_that_fail_are_explained() {
    let home = HomePath::resolve("/app/managed-homes/first");
    let manager = CodexAccountManager::new();
    let file = FileRead::Contents(auth("new@example.com", NEW));
    let good = manager
        .authenticate_account(
            &CodexLoginOutcome::Success("ok".into()),
            &file,
            &home,
            CodexAccountSource::ManagedByApp,
            None,
            at(5),
            4,
        )
        .unwrap();
    assert_eq!(good.id, 4);
    assert_eq!(good.email_hint.as_deref(), Some("new@example.com"));
    let bad = vec![
        CodexLoginOutcome::MissingBinary,
        CodexLoginOutcome::LaunchFailed("x".into()),
        CodexLoginOutcome::TimedOut("x".into()),
        CodexLoginOutcome::Cancelled,
        CodexLoginOutcome::Failed("x".into()),
    ];
    for outcome in &bad {
        let words = login_error(outcome).unwrap();
        let refused = manager.authenticate_account(
            outcome,
            &file,
            &home,
            CodexAccountSource::ManagedByApp,
            None,
            at(5),
            4,
        );
        assert!(matches!(refused, Err(CodexAccountManagerError::Message(m)) if m == words));
    }
    assert!(login_error(&CodexLoginOutcome::Success("ok".into())).is_none());
}

#[test]
fn only_homes_below_the_root_are_removed() {
    let parts = |s: &str| s.split('/').map(String::from).collect::<Vec<String>>();
    assert!(check_removal(&parts("/app/homes"), &parts("/app/homes/a")).is_ok());
    assert!(check_removal(&parts("/app/homes"), &parts("/app/homes")).is_err());
    assert!(check_removal(&parts("/app/homes"), &parts("/app/other/a")).is_err());
}

#[test]
fn a_switch_needs_the_credentials_of_its_target() {
    let manager = CodexAccountManager::new();
    let target = make_account("/app/managed-homes/target", "new@example.com", NEW);
    assert!(manager.plan_switch(&target, false, None).is_err());
    assert!(!manager.plan_switch(&target, true, None).unwrap());
    assert!(manager
        .materialize_as_managed(&target, false, &HomePath::resolve("/x"), at(0))
        .is_err());
}

#[test]
fn the_newer_copy_of_the_credentials_is_kept() {
    let ambient = HomePath::resolve("/app/.codex");
    let managed = HomePath::resolve("/app/managed-homes/a");
    let dated = |when: &str, id: &str| auth("a@b.c", id).replace("2026-04-23T00:00:00Z", when);
    let old = dated("2026-01-01T00:00:00Z", NEW);
    let new = dated("2026-02-01T00:00:00Z", NEW);
    let plan = |a: &str, m: &str| {
        synchronize_active_copy(&ambient, &managed, "/a", "/m", a, m).unwrap()
    };
    assert!(matches!(plan(&new, &old), CopyPlan::AmbientToManaged));
    assert!(matches!(plan(&old, &new), CopyPlan::ManagedToAmbient));
    assert!(matches!(plan(&old, &old), CopyPlan::Nothing));
    assert!(matches!(plan(&new, &dated("2026-01-01T00:00:00Z", OLD)), CopyPlan::Nothing));
    assert!(matches!(
        synchronize_active_copy(&ambient, &managed, "/a", "/a", &new, &old),
        Ok(CopyPlan::Nothing)
    ));
    assert!(synchronize_active_copy(&ambient, &managed, "/a", "/m", "{", &old).is_err());
}

#[test]
fn backups_are_named_by_the_time() {
    let slug = timestamp_slug_at(at(1_767_225_600));
    assert!(slug.starts_with("20260101"));
    assert!(backup_file_name(at(1_767_225_600)).starts_with("ambient-auth-"));
    assert!(backup_file_name(at(1_767_225_600)).contains(&slug));
    assert_eq!(
        managed_home_key(&HomePath::resolve("/App/Homes")),
        managed_home_key(&HomePath::resolve("/app/homes"))
    );
}

#[test]
fn manager_errors_say_what_happened() {
    assert_eq!(CodexAccountManagerError::Message("m".into()).to_text(), "m");
    assert!(CodexAccountManagerError::Io("disk".into()).to_text().contains("disk"));
    let e = CodexAccountManagerError::from_api_error(&CodexApiError::Message("m".into()));
    assert_eq!(e.to_text(), "m");
}

#[test]
fn build_restart_script_includes_restart_flow() {
    let script = build_restart_script(1250, "restart.log", None, None, None, &vec![]);
    assert!(script.contains("Write-Log"));
    assert!(script.contains("Get-CimInstance Win32_Process"));
    assert!(script.contains("Get-AppxPackage"));
    assert!(script.contains("taskkill.exe /PID"));
    assert!(script.contains("$manifest.Package.Applications.Application"));
    assert!(script.contains("$_.ExecutablePath -ieq $launcherPath"));
    assert!(!script.contains("$_.Name -ieq 'Codex.exe'"));
    assert!(script.contains("Start-Process -FilePath $launcherPath"));
    assert!(script.contains("Start-Sleep -Milliseconds 1250"));
}

#[test]
fn build_restart_script_includes_desktop_session_sync() {
    let script = build_restart_script(
        500,
        "restart.log",
        Some(r"C:\Users\test\AppData\Local\Packages\OpenAI.Codex_test\LocalCache\Roaming\Codex"),
        Some(r"C:\Users\test\AppData\Roaming\CodexControl\managed-homes\current\desktop-session"),
        Some(r"C:\Users\test\AppData\Roaming\CodexControl\managed-homes\target\desktop-session"),
        &vec!["Network/Cookies".to_string()],
    );

    assert!(script.contains(
        "$sessionRoot = 'C:\\Users\\test\\AppData\\Local\\Packages\\OpenAI.Codex_test\\LocalCache\\Roaming\\Codex'"
    ));
    assert!(script.contains(
        "$backupDestination = 'C:\\Users\\test\\AppData\\Roaming\\CodexControl\\managed-homes\\current\\desktop-session'"
    ));
    assert!(script.contains(
        "$restoreSource = 'C:\\Users\\test\\AppData\\Roaming\\CodexControl\\managed-homes\\target\\desktop-session'"
    ));
    assert!(script.contains("function Sync-DesktopSessionState()"));
    assert!(script.contains("Copy-SessionEntry $sessionRoot $backupDestination $relativePath"));
    assert!(script.contains("Copy-SessionEntry $restoreSource $sessionRoot $relativePath"));
    assert!(script.contains("Clear-SessionEntry $sessionRoot $relativePath"));
    assert!(script.contains("No saved session for target; clearing the previous desktop session"));
    assert!(script.contains("Failed to back up session entry"));
    assert!(script.contains("Failed to restore session entry"));
}

#[test]
fn encode_powershell_script_round_trips_utf16le() {
    let script = "Start-Process -FilePath 'Codex.exe'";
    let encoded = encode_powershell_script(script);
    let bytes = STANDARD.decode(encoded).unwrap();
    let units: Vec<u16> = bytes
        .chunks(2)
        .map(|chunk| u16::from_le_bytes([chunk[0], chunk[1]]))
        .collect();
    let decoded = String::from_utf16(&units).unwrap();
    assert_eq!(decoded, script);
}

#[test]
fn build_restart_command_invokes_hidden_powershell_file() {
    let command = build_restart_command(r"C:\temp\restart.ps1", Some(r"C:\Windows"), '\\');
    assert!(command[0].to_lowercase().ends_with("powershell.exe"));
    assert!(command.contains(&"-WindowStyle".to_string()));
    assert!(command.contains(&"Hidden".to_string()));
    assert_eq!(command[command.len() - 2], "-File");
    assert!(command
        .last()
        .unwrap()
        .to_lowercase()
        .ends_with("temp\\restart.ps1"));
    assert!(build_restart_command("x", None, '\\')[0].ends_with("powershell.exe"));
}

#[test]
fn hidden_script_failure_is_returned_to_the_caller() {
    let failed = launch_hidden_powershell(&RestartRun::Ended { success: false }, "restart.log");
    assert!(failed.unwrap_err().to_text().contains("could not restart"));
    assert!(launch_hidden_powershell(&RestartRun::Ended { success: true }, "l").is_ok());
    assert!(matches!(
        launch_hidden_powershell(&RestartRun::NotStarted("io".into()), "l"),
        Err(CodexDesktopControlError::Message(e)) if e == "Failed to restart Codex Desktop: io"
    ));
    assert!(launch_hidden_powershell(&RestartRun::Unsupported, "l").is_err());
}

#[test]
fn paths_are_quoted_for_the_script() {
    assert_eq!(powershell_literal_path("it's"), "'it''s'");
    assert_eq!(powershell_path_or_null(None), "$null");
    assert_eq!(powershell_path_or_null(Some("x")), "'x'");
    assert_eq!(powershell_string_array(&vec!["a".into(), "b'c".into()]), "@('a', 'b''c')");
    assert!(restart_log_path("/app", '/').starts_with("/app/"));
    assert!(restart_script_path("/app", '/').ends_with(".ps1"));
    assert_eq!(DEFAULT_RESTART_DELAY_MS, 800);
}

#[test]
fn discovers_versioned_desktop_cli_and_ignores_incomplete_updates() {
    let found = vec![("/root/hash with spaces/codex.exe".to_string(), Some(at(1)))];
    assert_eq!(versioned_binaries(&found), vec!["/root/hash with spaces/codex.exe"]);
    assert!(versioned_binaries(&vec![]).is_empty());
    let several = vec![
        ("/old".to_string(), Some(at(1))),
        ("/new".to_string(), Some(at(2))),
    ];
    assert_eq!(versioned_binaries(&several)[0], "/new");
}

#[test]
fn runs_of_the_sign_in_are_told_apart() {
    let outcome = |run: LoginRun| CodexLoginRunner::run(&run).outcome;
    assert!(matches!(outcome(LoginRun::NotFound), CodexLoginOutcome::MissingBinary));
    assert!(matches!(outcome(LoginRun::NotStarted("e".into())), CodexLoginOutcome::LaunchFailed(e) if e == "e"));
    let ended = |success: bool, cancelled: bool| LoginRun::Ended {
        success,
        cancelled,
        stdout: b"login-complete\n".to_vec(),
        stderr: vec![],
    };
    assert!(matches!(outcome(ended(true, false)), CodexLoginOutcome::Success(o) if o == "login-complete"));
    assert!(matches!(outcome(ended(false, false)), CodexLoginOutcome::Failed(_)));
    assert!(matches!(outcome(ended(false, true)), CodexLoginOutcome::Cancelled));
    let late = LoginRun::TimedOut { stdout: vec![], stderr: b"slow".to_vec() };
    let late = outcome(late);
    assert_eq!(late.output(), "slow");
    assert!(matches!(late, CodexLoginOutcome::TimedOut(_)));
}

#[test]
fn output_is_joined_and_bounded() {
    assert_eq!(combine_output(b" a ", b" b "), "a\nb");
    assert_eq!(combine_output(b"", b""), "No output captured.");
    assert_eq!(combine_output(b"\xff", b""), "\u{fffd}");
    assert_eq!(combine_output(&vec![b'x'; 5000], b"").len(), 4000);
}

#[test]
fn a_sign_in_is_waited_for_until_its_deadline() {
    assert!(matches!(wait_step(false, true, 5, 10), WaitStep::Collect));
    assert!(matches!(wait_step(false, false, 5, 10), WaitStep::WaitOn));
    assert!(matches!(wait_step(false, false, 10, 10), WaitStep::GiveUp));
}

#[test]
fn the_binary_is_looked_for_in_order() {
    let candidates = vec![("/a".to_string(), false), ("/b".to_string(), true)];
    let found = CodexLoginRunner::locate_codex_binary(None, candidates.clone(), Some("/p".into()));
    assert_eq!(found.as_deref(), Some("/b"));
    let on_path = CodexLoginRunner::locate_codex_binary(Some("/bin/codex".into()), candidates, None);
    assert_eq!(on_path.as_deref(), Some("/bin/codex"));
    assert_eq!(
        CodexLoginRunner::locate_codex_binary(None, vec![], Some("/p".into())).as_deref(),
        Some("/p")
    );
    assert!(!path_candidates("/local", "/home/me", None, &vec![], '/').is_empty());
}

#[test]
fn credentials_are_backed_up_before_they_are_replaced() {
    let place = |steps: &Vec<SwitchStep>, step: SwitchStep| {
        steps.iter().position(|s| *s == step).unwrap()
    };
    for copy_first in [true, false] {
        let steps = switch_steps(copy_first);
        assert!(place(&steps, SwitchStep::BackUp) < place(&steps, SwitchStep::CopyCredentials));
        assert_eq!(steps[0] == SwitchStep::Materialize, copy_first);
        assert_eq!(steps.last(), Some(&SwitchStep::SyncState));
    }
}

#[test]
fn fetches_for_one_file_share_a_lane() {
    let mut lanes = LaneTable::new();
    let first = lanes.credential_lane(&vec![], "/a/auth.json");
    assert!(first.is_new && first.lane == 0);
    let other = lanes.credential_lane(&vec![true], "/b/auth.json");
    assert!(other.is_new && other.lane == 1);
    let again = lanes.credential_lane(&vec![true, true], "/a/auth.json");
    assert!(!again.is_new && again.lane == 0);
    assert_eq!(again.kept, vec![0, 1]);
    let later = lanes.credential_lane(&vec![false, true], "/a/auth.json");
    assert!(later.is_new && later.lane == 1);
    assert_eq!(later.kept, vec![1]);
    assert_eq!(lanes.paths, vec!["/b/auth.json", "/a/auth.json"]);
}

#[test]
fn a_fetch_for_the_active_account_uses_the_active_credentials() {
    let identity = AuthBackedIdentity {
        email: Some("new@example.com".into()),
        auth_subject: None,
        plan: None,
        provider_account_id: Some(NEW.into()),
    };
    let home = HomePath::resolve("/app/managed-homes/a");
    let active = make_account("/app/.codex", "new@example.com", NEW);
    let plan = plan_fetch(&identity, &home, Some(&active));
    assert_eq!(plan.home.raw, "/app/.codex");
    assert_eq!(plan.managed_copy.unwrap().raw, "/app/managed-homes/a");
    let stranger = make_account("/app/.codex", "old@example.com", OLD);
    let plan = plan_fetch(&identity, &home, Some(&stranger));
    assert_eq!(plan.home.raw, "/app/managed-homes/a");
    assert!(plan.managed_copy.is_none());
    assert_eq!(
        home_fetch_steps(true),
        vec![HomeStep::Synchronize, HomeStep::Fetch, HomeStep::Synchronize]
    );
    assert_eq!(home_fetch_steps(false), vec![HomeStep::Fetch]);
}

#[test]
fn the_desktop_package_reports_its_binary() {
    assert_eq!(packaged_binary(true, b" C:\\codex.exe\r\n").as_deref(), Some("C:\\codex.exe"));
    assert_eq!(packaged_binary(false, b"x"), None);
    assert_eq!(packaged_binary(true, b"\xff"), None);
}

#[test]
fn managed_homes_are_listed_by_name() {
    let manager = CodexAccountManager::new();
    let entries = vec![
        entry("/app/managed-homes/B", "b@example.com", OLD),
        entry("/app/managed-homes/a", "a@example.com", NEW),
        HomeEntry {
            home: HomePath::resolve("/app/managed-homes/empty"),
            auth_file: FileRead::NotFound,
            discovered_at: at(0),
        },
    ];
    let found = manager.discover_managed_accounts(&entries, &vec![1, 2, 3], &vec![]);
    let ids: Vec<u128> = found.iter().map(|a| a.id).collect();
    assert_eq!(ids, vec![2, 1]);
    let active = manager.load_active_identity(&entries[0].auth_file).unwrap();
    assert_eq!(active.email.as_deref(), Some("b@example.com"));
    assert!(manager.load_active_identity(&FileRead::NotFound).is_none());
}
