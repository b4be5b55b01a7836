use codexbar::claude::accounts::{
    config_dir, config_file, document_text, identity_failure, read_login, read_object, write_next,
    AccountManager, BytesRead, SavedLogin, StoreRead, SwitchPlan, WriteNext, WriteStage,
};
use codexbar::claude::command_line::{
    change_environment, command_line, environment_block, quote_argument, wide,
};
use codexbar::claude::errors::AccountError;
use codexbar::claude::login::{
    auth_overrides, begin_login, cancel_login, cleanup_abandoned_logins, cleanup_outcome, executable,
    finished_login, login_environment, login_wait, may_remove_login_directory, require_cli_closed,
    require_subscription_environment, CliProbe, EntryState, LoginEntry, LoginFlag, LoginPoll,
    LoginRoot, LoginWait,
};
use codexbar::claude::tool::Tool;
use codexbar::json::{read_json, JsonObject};
use codexbar::snapshot::ProviderId;
use uuid::Uuid;

fn tool() -> Tool {
    let name = format!("{:?}", ProviderId::Claude);
    let command = name.to_lowercase();
    Tool { name, command }
}

fn login(account: &str, org: &str, token: &str) -> SavedLogin {
    SavedLogin {
        oauth: read_json(&format!(
            r#"{{"accessToken":"{token}","refreshToken":"refresh-{token}","expiresAt":9999999999999,"subscriptionType":"max"}}"#
        ))
        .unwrap(),
        identity: read_json(&format!(
            r#"{{"accountUuid":"{account}","organizationUuid":"{org}","emailAddress":"same@example.com","organizationName":"{org}"}}"#
        ))
        .unwrap(),
    }
}

fn bytes(text: &str) -> BytesRead {
    BytesRead::Contents(text.as_bytes().to_vec())
}

fn text_of_json(login: &SavedLogin) -> (String, String) {
    let wrap = |key: &str, value: &codexbar::json::Json| {
        let mut o = JsonObject::new();
        o.set(key, value.clone());
        document_text(&o)
    };
    (wrap("value", &login.oauth), wrap("value", &login.identity))
}

/// The two documents of the tool while `login` is the active one.
struct Disk {
    credentials: BytesRead,
    config: BytesRead,
}

impl Disk {
    fn empty() -> Disk {
        Disk { credentials: BytesRead::NotFound, config: BytesRead::NotFound }
    }

    fn active(login: &SavedLogin) -> Disk {
        let mut credentials = JsonObject::new();
        credentials.set("claudeAiOauth", login.oauth.clone());
        credentials.set("mcpOAuth", read_json(r#"{"secret":"preserved"}"#).unwrap());
        credentials.set("pluginSecrets", read_json(r#"{"x":"secret"}"#).unwrap());
        let mut config = JsonObject::new();
        config.set("oauthAccount", login.identity.clone());
        config.set("projects", read_json(r#"{"test":"preferences"}"#).unwrap());
        config.set("hasCompletedOnboarding", read_json("true").unwrap());
        Disk {
            credentials: bytes(&document_text(&credentials)),
            config: bytes(&document_text(&config)),
        }
    }

    fn switch(&mut self, manager: &mut AccountManager, id: &str) -> Result<bool, AccountError> {
        match manager.switch(id, &self.credentials, &self.config)? {
            SwitchPlan::NoChange => Ok(false),
            SwitchPlan::Write { save_store, credentials, config, .. } => {
                self.credentials = bytes(&document_text(&credentials));
                self.config = bytes(&document_text(&config));
                Ok(save_store)
            }
        }
    }

    fn login(&self) -> SavedLogin {
        read_login(&self.credentials, &self.config).unwrap().unwrap()
    }
}

fn manager() -> AccountManager {
    AccountManager::load(&StoreRead::NotFound).unwrap()
}

fn token(login: &SavedLogin) -> &str {
    login.oauth.text_at("accessToken").unwrap()
}

#[test]
fn discovery_without_consent_never_opens_ambient_credentials() {
    let mut manager = manager();
    manager.import(login("saved", "one", "stored")).unwrap();
    // Invalid identity metadata leaves activity unknown; never parse credentials.
    let credentials = bytes("invalid JSON");
    let config = bytes("invalid JSON");
    let list = manager.list_with_consent(false, &credentials, &config).unwrap();
    assert_eq!(list.len(), 1);
    assert!(list[0].is_saved && !list[0].is_active);
    assert!(manager.list_with_consent(true, &credentials, &config).is_err());
}

#[test]
fn unknown_activity_keeps_saved_accounts_switchable_after_logout() {
    let mut manager = manager();
    let saved = login("b", "two", "saved-token");
    manager.import(saved.clone()).unwrap();
    let mut disk = Disk::active(&saved);
    let is_active = |m: &AccountManager, d: &Disk, consent: bool| {
        m.list_with_consent(consent, &d.credentials, &d.config).unwrap()[0].is_active
    };
    assert!(is_active(&manager, &disk, true));
    assert!(!is_active(&manager, &disk, false));

    // Logout can preserve unrelated secrets and stale account metadata.
    disk.credentials = bytes(r#"{"mcpOAuth":{"secret":"preserved"},"pluginSecrets":{"x":"secret"}}"#);
    for consent in [false, true] {
        let accounts = manager
            .list_with_consent(consent, &disk.credentials, &disk.config)
            .unwrap();
        assert_eq!(accounts.len(), 1);
        assert!(accounts[0].is_saved && !accounts[0].is_active);
    }
    disk.switch(&mut manager, "b:two").unwrap();
    let restored = read_object(&disk.credentials).unwrap();
    assert_eq!(restored.get("claudeAiOauth").unwrap().text_at("accessToken"), Some("saved-token"));
    assert_eq!(restored.get("mcpOAuth").unwrap().text_at("secret"), Some("preserved"));
    assert_eq!(restored.get("pluginSecrets").unwrap().text_at("x"), Some("secret"));
    assert!(is_active(&manager, &disk, true));
    assert!(!is_active(&manager, &disk, false));
}

#[test]
fn switching_does_not_require_a_metadata_write_after_credentials_change() {
    let mut manager = manager();
    manager.import(login("b", "two", "new")).unwrap();
    let mut disk = Disk::empty();
    let save_store = disk.switch(&mut manager, "b:two").unwrap();
    assert!(!save_store);
    assert_eq!(disk.login().id().unwrap(), "b:two");
}

#[test]
fn switching_preserves_settings_and_latest_outgoing_refresh_token() {
    let mut manager = manager();
    let a = login("a", "org-a", "old");
    let b = login("b", "org-b", "second");
    manager.import(a).unwrap();
    manager.import(b.clone()).unwrap();
    let mut disk = Disk::active(&login("a", "org-a", "rotated"));
    let save_store = disk.switch(&mut manager, &b.id().unwrap()).unwrap();
    assert!(save_store);
    let credentials = read_object(&disk.credentials).unwrap();
    assert_eq!(credentials.get("claudeAiOauth").unwrap().text_at("accessToken"), Some("second"));
    assert_eq!(credentials.get("mcpOAuth").unwrap().text_at("secret"), Some("preserved"));
    assert_eq!(credentials.get("pluginSecrets").unwrap().text_at("x"), Some("secret"));
    let config = read_object(&disk.config).unwrap();
    assert_eq!(config.get("oauthAccount").unwrap().text_at("accountUuid"), Some("b"));
    assert_eq!(config.get("projects").unwrap().text_at("test"), Some("preferences"));
    assert_eq!(config.get("hasCompletedOnboarding").unwrap().truth(), Some(true));
    disk.switch(&mut manager, "a:org-a").unwrap();
    assert_eq!(token(&disk.login()), "rotated");
}

#[test]
fn first_switch_automatically_saves_ambient_account() {
    let mut manager = manager();
    let mut disk = Disk::active(&login("a", "one", "ambient"));
    manager.import(login("b", "two", "new")).unwrap();
    assert!(manager
        .list_with_consent(true, &disk.credentials, &disk.config)
        .unwrap()
        .iter()
        .any(|a| a.is_active && !a.is_saved));
    disk.switch(&mut manager, "b:two").unwrap();
    disk.switch(&mut manager, "a:one").unwrap();
    assert!(manager
        .list_with_consent(true, &disk.credentials, &disk.config)
        .unwrap()
        .iter()
        .any(|a| a.id == "a:one" && a.is_active && a.is_saved));
}

#[test]
fn same_email_and_different_organizations_remain_distinct() {
    let mut manager = manager();
    manager.import(login("a", "one", "first")).unwrap();
    manager.import(login("a", "two", "second")).unwrap();
    manager.import(login("a", "one", "updated")).unwrap();
    let disk = Disk::empty();
    assert_eq!(
        manager
            .list_with_consent(true, &disk.credentials, &disk.config)
            .unwrap()
            .len(),
        2
    );
    let stored = AccountManager::load(&StoreRead::Contents(manager.save())).unwrap();
    assert_eq!(token(&stored.accounts[0]), "updated");
}

#[test]
fn metadata_bridge_never_contains_credentials() {
    let mut manager = manager();
    manager.import(login("a", "one", "secret-token")).unwrap();
    let list = manager.list(&BytesRead::NotFound, &BytesRead::NotFound).unwrap();
    let shown = format!("{list:?}");
    assert!(!shown.contains("secret-token"));
    assert!(!shown.contains("refreshToken"));
    assert!(shown.contains("is_saved"));
}

#[test]
fn corrupt_config_and_unknown_target_do_not_replace_credentials() {
    let mut manager = manager();
    let mut disk = Disk::active(&login("a", "one", "original"));
    manager.import(login("b", "two", "other")).unwrap();
    assert!(matches!(disk.switch(&mut manager, "unknown"), Err(AccountError::AccountNotFound)));
    disk.config = bytes("invalid JSON");
    assert!(disk.switch(&mut manager, "b:two").is_err());
    assert_eq!(manager.accounts.len(), 1);
    disk.config = Disk::active(&login("a", "one", "original")).config;
    assert_eq!(token(&disk.login()), "original");
}

#[test]
fn corrupt_store_is_not_replaced_and_removal_does_not_log_out() {
    let mut manager = manager();
    let disk = Disk::active(&login("a", "one", "original"));
    manager.save_current(&disk.credentials, &disk.config).unwrap();
    manager.remove("a:one");
    let list = manager
        .list_with_consent(true, &disk.credentials, &disk.config)
        .unwrap();
    assert_eq!(list.len(), 1);
    assert!(list[0].is_active && !list[0].is_saved);
    assert!(matches!(
        AccountManager::load(&StoreRead::Contents("broken".into())),
        Err(AccountError::UnreadableStore)
    ));
}

#[test]
fn a_saved_store_is_read_back() {
    let mut manager = manager();
    manager.import(login("a", "one", "first")).unwrap();
    manager.import(login("b", "two", "second")).unwrap();
    let again = AccountManager::load(&StoreRead::Contents(manager.save())).unwrap();
    assert_eq!(again.accounts.len(), 2);
    for (x, y) in manager.accounts.iter().zip(again.accounts.iter()) {
        assert_eq!(text_of_json(x), text_of_json(y));
    }
    let other = r#"{"accounts":[],"later":1}"#.to_string();
    assert_eq!(AccountManager::load(&StoreRead::Contents(other)).unwrap().accounts.len(), 0);
    assert!(matches!(
        AccountManager::load(&StoreRead::Failed("denied".into())),
        Err(AccountError::Other(e)) if e == "denied"
    ));
}

#[test]
fn a_login_needs_its_fields() {
    let whole = login("a", "one", "t");
    assert!(whole.validate().is_ok());
    assert_eq!(whole.summary(true, false).unwrap().plan.as_deref(), Some("max"));
    for key in ["accountUuid", "organizationUuid", "emailAddress"] {
        let mut o = JsonObject::new();
        for other in ["accountUuid", "organizationUuid", "emailAddress"] {
            if other != key {
                o.set(other, whole.identity.get(other).unwrap().clone());
            }
        }
        let partial = SavedLogin {
            oauth: whole.oauth.clone(),
            identity: read_json(&document_text(&o)).unwrap(),
        };
        assert!(matches!(partial.validate(), Err(AccountError::MissingField(k)) if k == key));
    }
}

#[test]
fn damaged_documents_are_told_apart() {
    assert!(matches!(read_object(&bytes("{")), Err(AccountError::InvalidConfig)));
    assert!(matches!(read_object(&bytes("[]")), Err(AccountError::ConfigNotObject)));
    assert!(matches!(read_object(&BytesRead::Failed("io".into())), Err(AccountError::Other(e)) if e == "io"));
    assert!(read_object(&BytesRead::NotFound).unwrap().get("x").is_none());
    assert!(read_login(&bytes(r#"{"claudeAiOauth":null}"#), &bytes("{")).unwrap().is_none());
}

#[test]
fn saving_needs_a_login() {
    let mut manager = manager();
    assert!(matches!(
        manager.save_current(&BytesRead::NotFound, &BytesRead::NotFound),
        Err(AccountError::NoSubscriptionLogin)
    ));
    assert!(manager.accounts.is_empty());
}

#[test]
fn switching_to_the_active_account_changes_nothing() {
    let mut manager = manager();
    let disk = Disk::active(&login("a", "one", "t"));
    manager.import(login("a", "one", "t")).unwrap();
    assert!(matches!(
        manager.switch("a:one", &disk.credentials, &disk.config),
        Ok(SwitchPlan::NoChange)
    ));
}

#[test]
fn a_failed_identity_is_undone() {
    assert!(matches!(
        write_next(WriteStage::StageCredentials, true),
        WriteNext::Go(WriteStage::StageConfig)
    ));
    assert!(matches!(
        write_next(WriteStage::CommitConfig, false),
        WriteNext::Go(WriteStage::RestoreCredentials)
    ));
    assert!(matches!(write_next(WriteStage::CommitConfig, true), WriteNext::Done));
    assert!(matches!(write_next(WriteStage::RestoreCredentials, true), WriteNext::FailRestored));
    assert!(matches!(write_next(WriteStage::RestoreCredentials, false), WriteNext::FailHalfway));
    assert!(matches!(identity_failure(true, "full"), AccountError::SwitchUndone(e) if e == "full"));
    assert!(matches!(identity_failure(false, "full"), AccountError::SwitchHalfway));
}

#[test]
fn the_directory_of_the_tool_lies_in_the_home() {
    let tool = tool();
    let dir = config_dir(&tool, None, false, Some("/home/me"), '/').unwrap();
    assert_eq!(dir, format!("/home/me/.{}", tool.command));
    assert_eq!(config_dir(&tool, Some("/x"), true, None, '/').unwrap(), "/x");
    let file = config_file(&tool, None, &dir, Some("/home/me"), '/').unwrap();
    assert_eq!(file, format!("/home/me/.{}.json", tool.command));
    assert!(config_dir(&tool, None, false, None, '/').is_err());
}

#[test]
fn every_failure_has_its_words() {
    let tool = tool();
    let all = vec![
        AccountError::MissingField("emailAddress".into()),
        AccountError::InvalidConfig,
        AccountError::ConfigNotObject,
        AccountError::UnreadableStore,
        AccountError::NoSubscriptionLogin,
        AccountError::AccountNotFound,
        AccountError::SwitchUndone("e".into()),
        AccountError::SwitchHalfway,
        AccountError::OverrideSet("X".into()),
        AccountError::CliNotFound,
        AccountError::NativeCliNeeded,
        AccountError::LinkedRoot,
        AccountError::SignInIncomplete,
        AccountError::SignInCancelled,
        AccountError::SignInTimedOut,
        AccountError::NothingSaved,
        AccountError::UncountedSessions,
        AccountError::SessionsOpen,
        AccountError::Other("e".into()),
    ];
    let words: Vec<String> = all.iter().map(|e| e.message(&tool)).collect();
    for (i, a) in words.iter().enumerate() {
        for b in &words[i + 1..] {
            assert_ne!(a, b);
        }
    }
    assert!(words[0].contains("emailAddress"));
    assert_eq!(words[18], "e");
    assert_eq!(
        words[17],
        format!(
            "Close your running {0} Code CLI sessions, then switch accounts and reopen {0} Code.",
            tool.name
        )
    );
}

fn known(name: &str, is_dir: bool, is_link: bool) -> LoginEntry {
    LoginEntry {
        name: name.to_string(),
        state: EntryState::Known { is_dir, is_link, parent_is_root: true },
    }
}

#[test]
fn startup_cleanup_removes_only_uuid_login_directories() {
    let abandoned = Uuid::new_v4().to_string();
    let entries = vec![known("keep-me", true, false), known(&abandoned, true, false)];
    let plan = cleanup_abandoned_logins(&LoginRoot::Present, &entries).unwrap();
    assert_eq!(plan.remove, vec![1]);
    assert!(plan.first_error.is_none());
}

#[test]
fn startup_cleanup_continues_after_a_locked_down_directory() {
    let entries = vec![
        LoginEntry {
            name: "00000000-0000-4000-8000-000000000000".into(),
            state: EntryState::Unreadable("locked".into()),
        },
        known("ffffffff-ffff-4fff-8fff-ffffffffffff", true, false),
    ];
    let plan = cleanup_abandoned_logins(&LoginRoot::Present, &entries).unwrap();
    assert_eq!(plan.first_error.as_deref(), Some("locked"));
    assert_eq!(plan.remove, vec![1]);
}

#[test]
fn startup_cleanup_does_not_follow_junctions() {
    let link = Uuid::new_v4().to_string();
    let plan = cleanup_abandoned_logins(&LoginRoot::Present, &vec![known(&link, true, true)]).unwrap();
    assert!(plan.remove.is_empty());
    assert!(matches!(
        cleanup_abandoned_logins(&LoginRoot::Linked, &vec![]),
        Err(AccountError::LinkedRoot)
    ));
    assert!(cleanup_abandoned_logins(&LoginRoot::NotFound, &vec![]).unwrap().remove.is_empty());
    assert!(cleanup_abandoned_logins(&LoginRoot::Failed("io".into()), &vec![]).is_err());
}

#[test]
fn descriptor_override_blocks_switching_and_is_removed_from_login_children() {
    let descriptor = "CLAUDE_CODE_OAUTH_TOKEN_FILE_DESCRIPTOR";
    let error = require_subscription_environment(&vec![(descriptor.to_string(), "3".to_string())])
        .unwrap_err();
    assert!(error.message(&tool()).contains(descriptor));
    assert!(require_subscription_environment(&vec![]).is_ok());
    let unset: Vec<(String, String)> =
        auth_overrides().into_iter().map(|name| (name, String::new())).collect();
    assert!(require_subscription_environment(&unset).is_ok());
    assert!(login_environment("isolated")
        .iter()
        .any(|(key, value)| key == descriptor && value.is_none()));
}

#[test]
fn cancelled_and_timed_out_logins_reap_child() {
    for cancelled in [true, false] {
        let wait = login_wait(&LoginPoll::Running, cancelled, 11, 10);
        let LoginWait::Fail { kill, error } = wait else {
            panic!("the sign-in must end");
        };
        assert!(kill);
        assert_eq!(matches!(error, AccountError::SignInCancelled), cancelled);
        assert_eq!(matches!(error, AccountError::SignInTimedOut), !cancelled);
    }
    assert!(matches!(login_wait(&LoginPoll::Running, false, 10, 10), LoginWait::WaitOn));
}

#[test]
fn successful_login_reads_only_the_isolated_directory_and_failed_exit_is_rejected() {
    let credentials = bytes(r#"{"claudeAiOauth":{"accessToken":"isolated","refreshToken":"refresh"}}"#);
    let config = bytes(r#"{"oauthAccount":{"accountUuid":"test","organizationUuid":"org","emailAddress":"test@example.com"}}"#);
    assert!(matches!(
        login_wait(&LoginPoll::Exited { success: true }, false, 0, 10_000),
        LoginWait::ReadLogin
    ));
    let login = finished_login(&credentials, &config).unwrap();
    assert_eq!(login.id().unwrap(), "test:org");
    assert!(matches!(
        login_wait(&LoginPoll::Exited { success: false }, false, 0, 10_000),
        LoginWait::Fail { error: AccountError::SignInIncomplete, .. }
    ));
    assert!(matches!(
        finished_login(&BytesRead::NotFound, &config),
        Err(AccountError::NothingSaved)
    ));
}

#[test]
fn temporary_login_cleanup_cannot_remove_the_root() {
    let root = vec!["/".to_string(), "logins".to_string()];
    let mut path = root.clone();
    path.push(Uuid::new_v4().to_string());
    assert!(may_remove_login_directory(&root, &path));
    assert!(!may_remove_login_directory(&root, &root));
}

#[test]
fn sign_ins_start_uncancelled() {
    let mut flag = LoginFlag { cancelled: false };
    cancel_login(&mut flag);
    assert!(flag.cancelled);
    begin_login(&mut flag);
    assert!(!flag.cancelled);
}

#[test]
fn only_native_executables_sign_in_on_windows() {
    let path = || Some("x".to_string());
    assert_eq!(executable(path(), None, None, true).unwrap(), "x");
    assert_eq!(executable(None, path(), Some("EXE"), true).unwrap(), "x");
    assert!(matches!(executable(None, path(), Some("cmd"), true), Err(AccountError::NativeCliNeeded)));
    assert_eq!(executable(None, path(), None, false).unwrap(), "x");
    assert!(matches!(executable(None, None, None, false), Err(AccountError::CliNotFound)));
}

#[test]
fn open_sessions_keep_the_account_from_switching() {
    let probe = |success: bool, out: &[u8]| CliProbe { success, stdout: out.to_vec() };
    let none: Vec<(String, String)> = vec![];
    assert!(require_cli_closed(&none, None).is_ok());
    assert!(require_cli_closed(&none, Some(&probe(true, b" 0\r\n"))).is_ok());
    assert!(matches!(
        require_cli_closed(&none, Some(&probe(true, b"2\n"))),
        Err(AccountError::SessionsOpen)
    ));
    for bad in [probe(false, b"0"), probe(true, b"\xff"), probe(true, b"")] {
        assert!(matches!(
            require_cli_closed(&none, Some(&bad)),
            Err(AccountError::UncountedSessions)
        ));
    }
    let set = vec![("ANTHROPIC_API_KEY".to_string(), "k".to_string())];
    assert!(matches!(require_cli_closed(&set, None), Err(AccountError::OverrideSet(_))));
}

fn units(s: &str) -> Vec<u16> {
    s.encode_utf16().collect()
}

fn quoted(s: &str) -> String {
    let mut out: Vec<u16> = Vec::new();
    quote_argument(&units(s), &mut out).unwrap();
    String::from_utf16(&out).unwrap()
}

#[test]
fn arguments_are_quoted_where_they_need_it() {
    assert_eq!(quoted("plain"), "\"plain\"");
    assert_eq!(quoted("two words"), "\"two words\"");
    assert_eq!(quoted(r#"say "hi""#), r#""say \"hi\"""#);
    assert_eq!(quoted(r"dir\"), r#""dir\\""#);
    assert_eq!(quoted(r#"a\"b"#), r#""a\\\"b""#);
    assert!(quote_argument(&units("a\0b"), &mut Vec::new()).is_err());
}

#[test]
fn a_command_line_ends_with_a_nul() {
    let line = command_line(&vec![units("a b"), units("c")]).unwrap();
    assert_eq!(line.last(), Some(&0));
    assert_eq!(String::from_utf16(&line[..line.len() - 1]).unwrap(), "\"a b\" \"c\"");
    assert_eq!(wide(&units("x")).unwrap(), vec![120, 0]);
    assert!(wide(&units("\0")).is_err());
}

#[test]
fn the_environment_is_changed_and_sorted() {
    let base = vec![
        (units("b"), units("1")),
        (units("A"), units("2")),
        (units("gone"), units("3")),
    ];
    let changes = vec![(units("GONE"), None), (units("c"), Some(units("4")))];
    let values = change_environment(&base, &changes);
    let block = environment_block(&values).unwrap();
    let text = String::from_utf16(&block).unwrap();
    assert_eq!(text, "A=2\0b=1\0c=4\0\0");
}

#[test]
fn a_cleanup_tells_the_first_failure() {
    let failures = vec![None, Some("first".to_string()), Some("second".to_string())];
    assert_eq!(cleanup_outcome(&failures).unwrap_err().message(&tool()), "first");
    assert!(cleanup_outcome(&vec![None, None]).is_ok());
}

#[test]
fn stores_and_logins_may_be_arrays() {
    let text = r#"[[[{"accessToken":"t"},{"accountUuid":"a","organizationUuid":"o"}]]]"#;
    let store = AccountManager::load(&StoreRead::Contents(text.to_string())).unwrap();
    assert_eq!(store.accounts.len(), 1);
    assert_eq!(store.accounts[0].id().unwrap(), "a:o");
    for bad in ["[]", "[[],[]]", "[[[1]]]", "[[[1,2,3]]]", r#"{"accounts":[{"oauth":1}]}"#] {
        assert!(AccountManager::load(&StoreRead::Contents(bad.to_string())).is_err());
    }
}

#[test]
fn logins_with_doubles_survive_a_store_and_a_switch() {
    let mut saved = login("b", "two", "saved");
    saved.oauth = read_json(
        r#"{"accessToken":"saved","refreshToken":"r","expiresAt":1.5e12,"weights":[0.1,{"x":-2.5e-7}]}"#,
    )
    .unwrap();
    let mut manager = manager();
    manager.import(saved).unwrap();
    let text = manager.save();
    let mut loaded = AccountManager::load(&StoreRead::Contents(text)).unwrap();
    assert_eq!(loaded.accounts.len(), 1);
    assert_eq!(token(&loaded.accounts[0]), "saved");
    let mut disk = Disk::active(&login("a", "one", "first"));
    assert!(disk.switch(&mut loaded, "b:two").unwrap());
    assert_eq!(token(&disk.login()), "saved");
    assert_eq!(disk.login().id().unwrap(), "b:two");
}

#[test]
fn broken_units_of_an_environment_are_kept() {
    let base = vec![(units("B"), vec![0xd800, 120]), (vec![0xdc00], units("y"))];
    let values = change_environment(&base, &vec![(units("b"), Some(vec![0xd801]))]);
    assert_eq!(
        environment_block(&values).unwrap(),
        vec![98, 61, 0xd801, 0, 0xdc00, 61, 121, 0, 0]
    );
    assert_eq!(environment_block(&vec![]).unwrap(), vec![0, 0]);
    assert!(environment_block(&vec![(units("a"), vec![0])]).is_err());
}
