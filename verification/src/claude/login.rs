//! Signing in to an account of the tool in a directory of its own.

use vstd::prelude::*;
use vstd::string::StrSliceExecFns;
use crate::claude::errors::{AccountError, AccountErrorView};
use crate::claude::accounts::{login_in, read_login, BytesRead, SavedLogin};
use crate::claude::command_line::{changed_environment, folded, removed_variable_is_gone};
use crate::outside::{decode_lossy, lossy_text, parse_uuid, utf16_text, uuid_number};
use crate::text::{ascii_lower, same, seen, to_ascii_lower, trim, trimmed, unsigned_value, parse_unsigned, views};

verus! {

/// Whether the sign-in under way was cancelled.
#[derive(Clone, Copy, Debug, PartialEq, Eq, Structural)]
pub struct LoginFlag {
    pub cancelled: bool,
}

/// Cancels the sign-in under way.
pub fn cancel_login(flag: &mut LoginFlag)
    ensures
        final(flag).cancelled,
{
    flag.cancelled = true;
}

/// Clears the way for a new sign-in.
pub fn begin_login(flag: &mut LoginFlag)
    ensures
        !final(flag).cancelled,
{
    flag.cancelled = false;
}

/// The variables that put another authentication in the place of a subscription.
pub open spec fn override_names() -> Seq<Seq<char>> {
    seq![
        "ANTHROPIC_API_KEY"@,
        "ANTHROPIC_AUTH_TOKEN"@,
        "CLAUDE_CODE_OAUTH_TOKEN"@,
        "CLAUDE_CODE_OAUTH_TOKEN_FILE_DESCRIPTOR"@,
        "CLAUDE_CODE_USE_BEDROCK"@,
        "CLAUDE_CODE_USE_VERTEX"@,
        "CLAUDE_CODE_USE_FOUNDRY"@,
    ]
}

/// The variables that put another authentication in the place of a subscription.
pub fn auth_overrides() -> (r: Vec<String>)
    ensures
        views(r@) == override_names(),
{
    let mut out: Vec<String> = Vec::new();
    out.push("ANTHROPIC_API_KEY".to_owned());
    out.push("ANTHROPIC_AUTH_TOKEN".to_owned());
    out.push("CLAUDE_CODE_OAUTH_TOKEN".to_owned());
    out.push("CLAUDE_CODE_OAUTH_TOKEN_FILE_DESCRIPTOR".to_owned());
    out.push("CLAUDE_CODE_USE_BEDROCK".to_owned());
    out.push("CLAUDE_CODE_USE_VERTEX".to_owned());
    out.push("CLAUDE_CODE_USE_FOUNDRY".to_owned());
    assert(views(out@) =~= override_names());
    out
}

/// `name` is set to something in `environment`.
pub open spec fn is_set(environment: Seq<(String, String)>, name: Seq<char>) -> bool {
    exists|i: int|
        0 <= i < environment.len() && (#[trigger] environment[i]).0@ == name && environment[i].1@.len()
            > 0
}

/// The first of the names at or after `i` that is set.
pub open spec fn first_set(
    environment: Seq<(String, String)>,
    names: Seq<Seq<char>>,
    i: int,
) -> Option<Seq<char>>
    decreases names.len() - i,
{
    if i >= names.len() {
        None
    } else if is_set(environment, names[i]) {
        Some(names[i])
    } else {
        first_set(environment, names, i + 1)
    }
}

fn is_set_in(environment: &Vec<(String, String)>, name: &str) -> (r: bool)
    ensures
        r == is_set(environment@, name@),
{
    let mut i: usize = 0;
    while i < environment.len()
        invariant
            i <= environment@.len(),
            forall|j: int|
                0 <= j < i ==> !((#[trigger] environment@[j]).0@ == name@ && environment@[j].1@.len()
                    > 0),
        decreases environment@.len() - i,
    {
        if same(environment[i].0.as_str(), name) && !environment[i].1.as_str().is_empty() {
            return true;
        }
        i += 1;
    }
    false
}

/// Whether the environment lets a subscription be used: none of the overriding variables is
/// set to anything. `environment` holds what was looked up under their names.
pub fn require_subscription_environment(environment: &Vec<(String, String)>) -> (r: Result<
    (),
    AccountError,
>)
    ensures
        match first_set(environment@, override_names(), 0) {
            None => r is Ok,
            Some(name) => r is Err && r->Err_0@ == AccountErrorView::OverrideSet(name),
        },
{
    let names = auth_overrides();
    let mut i: usize = 0;
    while i < names.len()
        invariant
            views(names@) == override_names(),
            i <= names@.len(),
            first_set(environment@, override_names(), 0) == first_set(
                environment@,
                override_names(),
                i as int,
            ),
        decreases names@.len() - i,
    {
        assert(views(names@)[i as int] == names@[i as int]@);
        if is_set_in(environment, names[i].as_str()) {
            return Err(AccountError::OverrideSet(names[i].clone()));
        }
        i += 1;
    }
    Ok(())
}

/// A change to a variable of the environment: a value, or `None` where it is taken out.
pub open spec fn change_views(v: Seq<(String, Option<String>)>) -> Seq<
    (Seq<char>, Option<Seq<char>>),
> {
    v.map_values(|c: (String, Option<String>)| (c.0@, seen(c.1)))
}

/// The changes to the environment in which a sign-in runs.
pub open spec fn login_changes(dir: Seq<char>) -> Seq<(Seq<char>, Option<Seq<char>>)> {
    seq![("CLAUDE_CONFIG_DIR"@, Some(dir))] + override_names().push("CLAUDECODE"@).map_values(
        |name: Seq<char>| (name, None::<Seq<char>>),
    )
}

/// The changes to the environment in which a sign-in runs: its own directory, and none of the
/// variables that would put another authentication in the place of the browser's.
pub fn login_environment(dir: &str) -> (r: Vec<(String, Option<String>)>)
    ensures
        change_views(r@) == login_changes(dir@),
{
    let mut names = auth_overrides();
    let ghost base = names@;
    names.push("CLAUDECODE".to_owned());
    assert(views(names@) =~= views(base).push("CLAUDECODE"@));
    let ghost all = login_changes(dir@);
    let mut out: Vec<(String, Option<String>)> = Vec::new();
    out.push(("CLAUDE_CONFIG_DIR".to_owned(), Some(dir.to_owned())));
    assert(change_views(out@) =~= all.take(1));
    let mut i: usize = 0;
    while i < names.len()
        invariant
            i <= names@.len(),
            views(names@) == override_names().push("CLAUDECODE"@),
            all == login_changes(dir@),
            all.len() == names@.len() + 1,
            change_views(out@) == all.take(i + 1),
        decreases names@.len() - i,
    {
        let ghost before = out@;
        assert(views(names@)[i as int] == names@[i as int]@);
        out.push((names[i].clone(), None));
        assert(change_views(out@) =~= change_views(before).push((names@[i as int]@, None)));
        assert(all.take(i + 2) =~= all.take(i + 1).push(all[i + 1]));
        i += 1;
    }
    assert(all.take(i + 1) =~= all);
    out
}

/// A sign-in never sees a variable that overrides the subscription: the changes for it, in
/// UTF-16 units, take every one of them out of any environment, under whatever capitals it is
/// written.
pub proof fn login_runs_without_overrides(
    dir: Seq<char>,
    base: Seq<(Seq<u16>, Seq<u16>)>,
    changes: Seq<(Vec<u16>, Option<Vec<u16>>)>,
    name: Seq<u16>,
    i: int,
)
    requires
        changes.len() == login_changes(dir).len(),
        forall|j: int|
            0 <= j < changes.len() ==> utf16_text((#[trigger] changes[j]).0@)
                == login_changes(dir)[j].0 && changes[j].1 is Some == login_changes(
                dir,
            )[j].1 is Some,
        override_names().contains(utf16_text(name)),
        0 <= i < changed_environment(base, changes, changes.len() as int).len(),
    ensures
        folded(changed_environment(base, changes, changes.len() as int)[i].0) != folded(name),
{
    let k = override_names().index_of(utf16_text(name));
    let names = override_names().push("CLAUDECODE"@);
    assert(names[k] == utf16_text(name));
    assert(login_changes(dir).len() == names.len() + 1);
    assert forall|j: int| 0 < j < changes.len() implies (#[trigger] changes[j]).1 is None
        && utf16_text(changes[j].0@) == names[j - 1] by {
        assert(login_changes(dir)[j] == (names[j - 1], None::<Seq<char>>));
    }
    removed_variable_is_gone(base, changes, k + 1, changes.len() as int, name, i);
}

/// The executable that signs in: the native installation first, then the search path. On
/// Windows only a native executable will do.
pub fn executable(
    native: Option<String>,
    on_path: Option<String>,
    extension: Option<&str>,
    windows: bool,
) -> (r: Result<String, AccountError>)
    ensures
        match (native, on_path) {
            (Some(path), _) => r is Ok && r->Ok_0@ == path@,
            (None, None) => r is Err && r->Err_0@
                == AccountErrorView::CliNotFound,
            (None, Some(path)) => if windows && !(extension matches Some(e) && ascii_lower(e@)
                == "exe"@) {
                r is Err && r->Err_0@
                    == AccountErrorView::NativeCliNeeded
            } else {
                r is Ok && r->Ok_0@ == path@
            },
        },
{
    match (native, on_path) {
        (Some(path), _) => Ok(path),
        (None, None) => Err(
            AccountError::CliNotFound,
        ),
        (None, Some(path)) => {
            let is_exe = match extension {
                Some(e) => same(to_ascii_lower(e).as_str(), "exe"),
                None => false,
            };
            if windows && !is_exe {
                Err(
                    AccountError::NativeCliNeeded,
                )
            } else {
                Ok(path)
            }
        },
    }
}

/// What a look at the root of the sign-in directories came to.
pub enum LoginRoot {
    NotFound,
    /// The root is a link.
    Linked,
    Failed(String),
    Present,
}

/// An entry in the root of the sign-in directories.
pub struct LoginEntry {
    pub name: String,
    pub state: EntryState,
}

/// What a look at an entry came to.
pub enum EntryState {
    Unreadable(String),
    Known { is_dir: bool, is_link: bool, parent_is_root: bool },
}

/// What becomes of an entry.
#[derive(Debug)]
pub enum EntryFate {
    Keep,
    Remove,
    Fail(String),
}

/// An entry that an abandoned sign-in left: a directory, not a link, directly in the root and
/// named by a UUID.
pub open spec fn is_abandoned(entry: LoginEntry) -> bool {
    &&& uuid_number(entry.name@) is Some
    &&& entry.state matches EntryState::Known { is_dir, is_link, parent_is_root }
    &&& is_dir && !is_link && parent_is_root
}

/// What becomes of an entry. An entry that is not named by a UUID is not even looked at.
pub fn cleanup_login_entry(entry: &LoginEntry) -> (r: EntryFate)
    ensures
        r is Remove <==> is_abandoned(*entry),
        r matches EntryFate::Fail(e) ==> entry.state matches EntryState::Unreadable(own) && e@
            == own@,
        r is Fail <==> uuid_number(entry.name@) is Some && entry.state is Unreadable,
{
    if parse_uuid(entry.name.as_str()).is_none() {
        return EntryFate::Keep;
    }
    match &entry.state {
        EntryState::Unreadable(e) => EntryFate::Fail(e.clone()),
        EntryState::Known { is_dir, is_link, parent_is_root } => {
            if *is_dir && !*is_link && *parent_is_root {
                EntryFate::Remove
            } else {
                EntryFate::Keep
            }
        },
    }
}

/// The first failure from position `i` on.
pub open spec fn first_told(failures: Seq<Option<String>>, i: int) -> Option<Seq<char>>
    decreases failures.len() - i,
{
    if i >= failures.len() {
        None
    } else if failures[i] is Some {
        seen(failures[i])
    } else {
        first_told(failures, i + 1)
    }
}

/// What a cleanup came to, given what went wrong with each entry, if anything: every entry is
/// seen to, and the first failure is told.
pub fn cleanup_outcome(failures: &Vec<Option<String>>) -> (r: Result<(), AccountError>)
    ensures
        match first_told(failures@, 0) {
            None => r is Ok,
            Some(e) => r is Err && r->Err_0@ == AccountErrorView::Other(e),
        },
{
    let mut i: usize = 0;
    while i < failures.len()
        invariant
            i <= failures@.len(),
            first_told(failures@, 0) == first_told(failures@, i as int),
        decreases failures@.len() - i,
    {
        if let Some(e) = &failures[i] {
            return Err(AccountError::Other(e.clone()));
        }
        i += 1;
    }
    Ok(())
}

/// The positions of the abandoned entries among the first `k`.
pub open spec fn abandoned(entries: Seq<LoginEntry>, k: int) -> Seq<usize>
    decreases k,
{
    if k <= 0 {
        Seq::empty()
    } else if is_abandoned(entries[k - 1]) {
        abandoned(entries, k - 1).push((k - 1) as usize)
    } else {
        abandoned(entries, k - 1)
    }
}

/// The first error met among the entries from `i` on.
pub open spec fn first_failure(entries: Seq<LoginEntry>, i: int) -> Option<Seq<char>>
    decreases entries.len() - i,
{
    if i >= entries.len() {
        None
    } else {
        match entries[i].state {
            EntryState::Unreadable(e) => if uuid_number(entries[i].name@) is Some {
                Some(e@)
            } else {
                first_failure(entries, i + 1)
            },
            _ => first_failure(entries, i + 1),
        }
    }
}

/// What abandoned sign-ins left: the positions of the entries to remove, and the first error,
/// which does not keep the other entries from being removed.
pub struct CleanupPlan {
    pub remove: Vec<usize>,
    pub first_error: Option<String>,
}

/// What is to be removed at the start. A root that is a link is refused; without a root there
/// is nothing to do.
pub fn cleanup_abandoned_logins(root: &LoginRoot, entries: &Vec<LoginEntry>) -> (r: Result<
    CleanupPlan,
    AccountError,
>)
    ensures
        match root {
            LoginRoot::Linked => r is Err && r->Err_0@
                == AccountErrorView::LinkedRoot,
            LoginRoot::Failed(e) => r is Err && r->Err_0@ == AccountErrorView::Other(e@),
            LoginRoot::NotFound => r is Ok && r->Ok_0.remove@ == Seq::<usize>::empty()
                && r->Ok_0.first_error is None,
            LoginRoot::Present => r is Ok && r->Ok_0.remove@ == abandoned(
                entries@,
                entries@.len() as int,
            ) && seen(r->Ok_0.first_error) == first_failure(entries@, 0),
        },
{
    match root {
        LoginRoot::Linked => {
            return Err(AccountError::LinkedRoot);
        },
        LoginRoot::Failed(e) => {
            return Err(AccountError::Other(e.clone()));
        },
        LoginRoot::NotFound => {
            return Ok(CleanupPlan { remove: Vec::new(), first_error: None });
        },
        LoginRoot::Present => {},
    }
    let mut remove: Vec<usize> = Vec::new();
    let mut first_error: Option<String> = None;
    let mut i: usize = 0;
    while i < entries.len()
        invariant
            i <= entries@.len(),
            remove@ == abandoned(entries@, i as int),
            first_failure(entries@, 0) == (if first_error is Some {
                seen(first_error)
            } else {
                first_failure(entries@, i as int)
            }),
        decreases entries@.len() - i,
    {
        match cleanup_login_entry(&entries[i]) {
            EntryFate::Keep => {},
            EntryFate::Remove => {
                remove.push(i);
            },
            EntryFate::Fail(e) => {
                if first_error.is_none() {
                    first_error = Some(e);
                }
            },
        }
        i += 1;
    }
    Ok(CleanupPlan { remove, first_error })
}

/// Only abandoned sign-ins are removed, and all of them are.
pub proof fn cleanup_removes_exactly_the_abandoned(entries: Seq<LoginEntry>, k: int, i: int)
    requires
        0 <= k <= entries.len() <= usize::MAX,
        0 <= i < entries.len(),
    ensures
        abandoned(entries, k).contains(i as usize) <==> i < k && is_abandoned(entries[i]),
    decreases k,
{
    if k > 0 {
        cleanup_removes_exactly_the_abandoned(entries, k - 1, i);
        let before = abandoned(entries, k - 1);
        let after = abandoned(entries, k);
        if is_abandoned(entries[k - 1]) {
            assert(after[before.len() as int] == (k - 1) as usize);
            if before.contains(i as usize) {
                let j = before.index_of(i as usize);
                assert(after[j] == i as usize);
            }
            if after.contains(i as usize) {
                let j = after.index_of(i as usize);
                if j < before.len() {
                    assert(before[j] == i as usize);
                }
            }
        }
    }
}

/// Whether the directory of a sign-in may be removed when it is over: it has to lie directly
/// in the root. Both paths are resolved and given by their parts.
pub fn may_remove_login_directory(root: &Vec<String>, path: &Vec<String>) -> (r: bool)
    ensures
        r == (path@.len() == root@.len() + 1 && views(path@).take(root@.len() as int) == views(
            root@,
        )),
{
    if path.len() == 0 || path.len() - 1 != root.len() {
        return false;
    }
    let mut i: usize = 0;
    while i < root.len()
        invariant
            i <= root@.len(),
            path@.len() == root@.len() + 1,
            forall|j: int| 0 <= j < i ==> #[trigger] views(path@)[j] == views(root@)[j],
        decreases root@.len() - i,
    {
        if !same(path[i].as_str(), root[i].as_str()) {
            assert(views(path@).take(root@.len() as int)[i as int] == path@[i as int]@);
            assert(views(root@)[i as int] == root@[i as int]@);
            return false;
        }
        i += 1;
    }
    assert(views(path@).take(root@.len() as int) =~= views(root@));
    true
}

/// What a look at the process that signs in came to.
pub enum LoginPoll {
    Failed(String),
    Exited { success: bool },
    Running,
}

/// What waiting for a sign-in does next.
#[derive(Debug)]
pub enum LoginWait {
    /// Stop the process where `kill` says so, and report the error.
    Fail { kill: bool, error: AccountError },
    /// Read the login that was saved.
    ReadLogin,
    /// Look again in a moment.
    WaitOn,
}

/// One look at the process that signs in. A process that has ended counts by how it ended,
/// also when it was cancelled or took too long.
pub fn login_wait(poll: &LoginPoll, cancelled: bool, elapsed_ms: u64, timeout_ms: u64) -> (r: LoginWait)
    ensures
        match poll {
            LoginPoll::Failed(e) => r matches LoginWait::Fail { kill, error } && kill && error@
                == AccountErrorView::Other(e@),
            LoginPoll::Exited { success } => if *success {
                r is ReadLogin
            } else {
                r matches LoginWait::Fail { kill, error } && !kill && error@
                    == AccountErrorView::SignInIncomplete
            },
            LoginPoll::Running => if cancelled {
                r matches LoginWait::Fail { kill, error } && kill && error@
                    == AccountErrorView::SignInCancelled
            } else if elapsed_ms > timeout_ms {
                r matches LoginWait::Fail { kill, error } && kill && error@
                    == AccountErrorView::SignInTimedOut
            } else {
                r is WaitOn
            },
        },
{
    match poll {
        LoginPoll::Failed(e) => LoginWait::Fail { kill: true, error: AccountError::Other(e.clone()) },
        LoginPoll::Exited { success } => {
            if *success {
                LoginWait::ReadLogin
            } else {
                LoginWait::Fail {
                    kill: false,
                    error: AccountError::SignInIncomplete,
                }
            }
        },
        LoginPoll::Running => {
            if cancelled {
                LoginWait::Fail { kill: true, error: AccountError::SignInCancelled }
            } else if elapsed_ms > timeout_ms {
                LoginWait::Fail {
                    kill: true,
                    error: AccountError::SignInTimedOut,
                }
            } else {
                LoginWait::WaitOn
            }
        },
    }
}

/// The login that a finished sign-in saved in its directory.
pub fn finished_login(credentials: &BytesRead, config: &BytesRead) -> (r: Result<SavedLogin, AccountError>)
    ensures
        match login_in(*credentials, *config) {
            Err(e) => r is Err && r->Err_0@ == e,
            Ok(None) => r is Err && r->Err_0@
                == AccountErrorView::NothingSaved,
            Ok(Some(login)) => r is Ok && r->Ok_0@ == login,
        },
{
    match read_login(credentials, config) {
        Err(e) => Err(e),
        Ok(None) => Err(
            AccountError::NothingSaved,
        ),
        Ok(Some(login)) => Ok(login),
    }
}

/// What asking for the number of running command line sessions came to.
pub struct CliProbe {
    pub success: bool,
    pub stdout: Vec<u8>,
}

/// Whether accounts may be switched: the environment lets a subscription be used, and no
/// command line session is running. Where sessions cannot be counted there is no probe.
pub fn require_cli_closed(environment: &Vec<(String, String)>, probe: Option<&CliProbe>) -> (r: Result<
    (),
    AccountError,
>)
    ensures
        match first_set(environment@, override_names(), 0) {
            Some(name) => r is Err && r->Err_0@ == AccountErrorView::OverrideSet(name),
            None => match probe {
                None => r is Ok,
                Some(p) => match unsigned_value(trimmed(lossy_text(p.stdout@))) {
                    None => r is Err && r->Err_0@ == AccountErrorView::UncountedSessions,
                    Some(n) => if !p.success {
                        r is Err && r->Err_0@ == AccountErrorView::UncountedSessions
                    } else if n > 0 {
                        r is Err && r->Err_0@
                            == AccountErrorView::SessionsOpen
                    } else {
                        r is Ok
                    },
                },
            },
        },
{
    if let Err(e) = require_subscription_environment(environment) {
        return Err(e);
    }
    let p = match probe {
        Some(p) => p,
        None => {
            return Ok(());
        },
    };
    if !p.success {
        return Err(AccountError::UncountedSessions);
    }
    let text = decode_lossy(p.stdout.as_slice());
    match parse_unsigned(trim(text.as_str())) {
        None => Err(AccountError::UncountedSessions),
        Some(n) => if n > 0 {
            Err(
                AccountError::SessionsOpen,
            )
        } else {
            Ok(())
        },
    }
}

/// A switch is refused exactly where one of the overriding variables is set to something: a key, a
/// token, or the use of another service. The first that is set is named.
pub proof fn every_override_stands_in_the_way(environment: Seq<(String, String)>, j: int)
    requires
        0 <= j < override_names().len(),
    ensures
        is_set(environment, override_names()[j]) ==> first_set(
            environment,
            override_names(),
            0,
        ) is Some,
        first_set(environment, override_names(), 0) matches Some(name) ==> is_set(environment, name)
            && override_names().contains(name),
        override_names().contains("ANTHROPIC_API_KEY"@),
        override_names().contains("ANTHROPIC_AUTH_TOKEN"@),
        override_names().contains("CLAUDE_CODE_OAUTH_TOKEN"@),
        override_names().contains("CLAUDE_CODE_OAUTH_TOKEN_FILE_DESCRIPTOR"@),
        override_names().contains("CLAUDE_CODE_USE_BEDROCK"@),
        override_names().contains("CLAUDE_CODE_USE_VERTEX"@),
        override_names().contains("CLAUDE_CODE_USE_FOUNDRY"@),
{
    lemma_first_set(environment, override_names(), 0);
    let names = override_names();
    assert(names[0] == "ANTHROPIC_API_KEY"@);
    assert(names[1] == "ANTHROPIC_AUTH_TOKEN"@);
    assert(names[2] == "CLAUDE_CODE_OAUTH_TOKEN"@);
    assert(names[3] == "CLAUDE_CODE_OAUTH_TOKEN_FILE_DESCRIPTOR"@);
    assert(names[4] == "CLAUDE_CODE_USE_BEDROCK"@);
    assert(names[5] == "CLAUDE_CODE_USE_VERTEX"@);
    assert(names[6] == "CLAUDE_CODE_USE_FOUNDRY"@);
}

proof fn lemma_first_set(environment: Seq<(String, String)>, names: Seq<Seq<char>>, i: int)
    requires
        0 <= i,
    ensures
        match first_set(environment, names, i) {
            Some(name) => is_set(environment, name) && names.contains(name),
            None => forall|j: int|
                i <= j < names.len() ==> !is_set(environment, #[trigger] names[j]),
        },
    decreases names.len() - i,
{
    if i < names.len() && !is_set(environment, names[i]) {
        lemma_first_set(environment, names, i + 1);
    }
}

/// A sign-in runs with its own directory for the configuration, and without every variable that
/// overrides a subscription.
pub proof fn a_sign_in_runs_in_its_own_directory(dir: Seq<char>, j: int)
    requires
        0 <= j < override_names().len(),
    ensures
        login_changes(dir)[0] == ("CLAUDE_CONFIG_DIR"@, Some(dir)),
        login_changes(dir).contains((override_names()[j], None::<Seq<char>>)),
        forall|i: int|
            1 <= i < login_changes(dir).len() ==> (#[trigger] login_changes(dir)[i]).1 is None,
{
    assert(login_changes(dir)[j + 1] == (override_names()[j], None::<Seq<char>>));
}

/// Accounts are switched only where no override is set and no session is running: one that cannot
/// be counted counts as running.
pub proof fn accounts_are_switched_between_sessions(
    environment: &Vec<(String, String)>,
    probe: Option<&CliProbe>,
    r: Result<(), AccountError>,
)
    requires
        call_ensures(require_cli_closed, (environment, probe), r),
    ensures
        r is Ok ==> forall|j: int|
            0 <= j < override_names().len() ==> !is_set(
                environment@,
                #[trigger] override_names()[j],
            ),
        r is Ok ==> (probe matches Some(p) ==> p.success && unsigned_value(
            trimmed(lossy_text(p.stdout@)),
        ) == Some(0u64)),
        probe matches Some(p) ==> !p.success ==> r is Err,
        (forall|j: int|
            0 <= j < override_names().len() ==> !is_set(
                environment@,
                #[trigger] override_names()[j],
            )) && probe is None ==> r is Ok,
        (forall|j: int|
            0 <= j < override_names().len() ==> !is_set(
                environment@,
                #[trigger] override_names()[j],
            )) ==> (probe matches Some(p) ==> p.success && unsigned_value(
            trimmed(lossy_text(p.stdout@)),
        ) == Some(0u64) ==> r is Ok),
{
    lemma_first_set(environment@, override_names(), 0);
    if let Some(name) = first_set(environment@, override_names(), 0) {
        let j = override_names().index_of(name);
        assert(is_set(environment@, override_names()[j]));
    }
}

/// A native installation goes before the search path; on Windows what the search path gives must be
/// an executable.
pub proof fn a_native_installation_goes_first(
    native: Option<String>,
    on_path: Option<String>,
    extension: Option<&str>,
    windows: bool,
    r: Result<String, AccountError>,
)
    requires
        call_ensures(executable, (native, on_path, extension, windows), r),
    ensures
        native matches Some(p) ==> r is Ok && r->Ok_0@ == p@,
        native is None && on_path is None ==> r is Err,
        native is None && !windows ==> (on_path matches Some(p) ==> r is Ok && r->Ok_0@ == p@),
        native is None && windows && on_path is Some && extension is None ==> r is Err,
        native is None && windows && on_path is Some && extension is Some ==> (r is Ok <==> ascii_lower(
            extension->Some_0@,
        ) == "exe"@),
        native is None && r is Ok ==> on_path is Some && r->Ok_0@ == on_path->Some_0@,
{
}

/// What an abandoned sign-in left is a directory of its own, directly in the root, named by a UUID:
/// no link, no file and nothing elsewhere is ever removed.
pub proof fn only_directories_of_sign_ins_are_removed(entry: LoginEntry)
    ensures
        is_abandoned(entry) ==> entry.state is Known && uuid_number(entry.name@) is Some,
        entry.state matches EntryState::Known { is_dir, is_link, parent_is_root } ==> {
            &&& !is_dir || is_link || !parent_is_root ==> !is_abandoned(entry)
            &&& is_dir && !is_link && parent_is_root && uuid_number(entry.name@) is Some
                ==> is_abandoned(entry)
        },
        entry.state is Unreadable ==> !is_abandoned(entry),
{
}

/// The first failure is told, and none where nothing failed.
pub proof fn the_first_failure_is_told(failures: Seq<Option<String>>, i: int)
    requires
        0 <= i,
    ensures
        first_told(failures, i) is None <==> forall|j: int|
            i <= j < failures.len() ==> (#[trigger] failures[j]) is None,
        first_told(failures, i) is Some ==> exists|k: int|
            i <= k < failures.len() && (#[trigger] failures[k]) is Some && failures[k]->Some_0@
                == first_told(failures, i)->Some_0 && forall|j: int|
                i <= j < k ==> (#[trigger] failures[j]) is None,
    decreases failures.len() - i,
{
    if i < failures.len() {
        if failures[i] is None {
            the_first_failure_is_told(failures, i + 1);
            if first_told(failures, i) is Some {
                let k = choose|k: int|
                    i + 1 <= k < failures.len() && (#[trigger] failures[k]) is Some
                        && failures[k]->Some_0@ == first_told(failures, i + 1)->Some_0 && forall|
                        j: int,
                    | i + 1 <= j < k ==> (#[trigger] failures[j]) is None;
                assert(failures[k] is Some && failures[k]->Some_0@ == first_told(
                    failures,
                    i,
                )->Some_0);
            }
        } else {
            assert(failures[i]->Some_0@ == first_told(failures, i)->Some_0);
        }
    }
}

/// The first entry of a sign-in that cannot be looked at is told, and no other entry.
pub proof fn the_first_unreadable_entry_is_told(entries: Seq<LoginEntry>, i: int, k: int)
    requires
        0 <= i <= k < entries.len(),
        entries[k].state is Unreadable,
        uuid_number(entries[k].name@) is Some,
        forall|j: int|
            i <= j < k ==> (#[trigger] entries[j]).state !is Unreadable || uuid_number(
                entries[j].name@,
            ) is None,
    ensures
        first_failure(entries, i) == Some(entries[k].state->Unreadable_0@),
    decreases k - i,
{
    if i < k {
        the_first_unreadable_entry_is_told(entries, i + 1, k);
    }
}

/// A sign-in is waited for while it runs, is not cancelled and has time left. One that ended well is
/// read, whatever else happened; any other end is told, and a process that still runs is stopped.
pub proof fn a_sign_in_is_waited_for_while_it_runs(
    poll: &LoginPoll,
    cancelled: bool,
    elapsed_ms: u64,
    timeout_ms: u64,
    r: LoginWait,
)
    requires
        call_ensures(login_wait, (poll, cancelled, elapsed_ms, timeout_ms), r),
    ensures
        r is WaitOn <==> *poll is Running && !cancelled && elapsed_ms <= timeout_ms,
        r is ReadLogin <==> *poll is Exited && poll->success,
        *poll is Running && r is Fail ==> r->kill,
        *poll is Exited && r is Fail ==> !r->kill,
        *poll is Running && cancelled ==> r is Fail && r->error@ is SignInCancelled,
        *poll is Running && !cancelled && elapsed_ms > timeout_ms ==> r is Fail
            && r->error@ is SignInTimedOut,
{
}

/// The directory of a sign-in may be removed only where it lies directly in the root.
pub proof fn only_what_lies_directly_in_the_root_is_removed(
    root: &Vec<String>,
    path: &Vec<String>,
    r: bool,
)
    requires
        call_ensures(may_remove_login_directory, (root, path), r),
    ensures
        path@.len() != root@.len() + 1 ==> !r,
        r ==> forall|i: int| 0 <= i < root@.len() ==> (#[trigger] path@[i])@ == root@[i]@,
        path@.len() == root@.len() + 1 && (forall|i: int|
            0 <= i < root@.len() ==> (#[trigger] path@[i])@ == root@[i]@) ==> r,
{
    let n = root@.len() as int;
    if r {
        assert forall|i: int| 0 <= i < n implies (#[trigger] path@[i])@ == root@[i]@ by {
            assert(views(path@).take(n)[i] == views(root@)[i]);
        }
    }
    if path@.len() == n + 1 && (forall|i: int| 0 <= i < n ==> (#[trigger] path@[i])@ == root@[i]@) {
        assert(views(path@).take(n) =~= views(root@));
    }
}

/// A sign-in that ended well is the login that it saved; without one it failed after all.
pub proof fn a_finished_sign_in_is_the_login_it_saved(
    credentials: &BytesRead,
    config: &BytesRead,
    r: Result<SavedLogin, AccountError>,
)
    requires
        call_ensures(finished_login, (credentials, config), r),
    ensures
        r matches Ok(login) ==> login@.missing() is None,
        *credentials is NotFound ==> r is Err && r->Err_0@ is NothingSaved,
        login_in(*credentials, *config) matches Ok(Some(login)) ==> r is Ok && r->Ok_0@ == login,
{
}

/// A subscription may be used exactly where no overriding variable is set to anything.
pub proof fn a_subscription_is_used_without_overrides(
    environment: &Vec<(String, String)>,
    r: Result<(), AccountError>,
)
    requires
        call_ensures(require_subscription_environment, (environment,), r),
    ensures
        r is Ok <==> forall|j: int|
            0 <= j < override_names().len() ==> !is_set(
                environment@,
                #[trigger] override_names()[j],
            ),
        r is Err ==> r->Err_0@ is OverrideSet && is_set(environment@, r->Err_0@->OverrideSet_0),
{
    lemma_first_set(environment@, override_names(), 0);
    if let Some(name) = first_set(environment@, override_names(), 0) {
        let j = override_names().index_of(name);
        assert(is_set(environment@, override_names()[j]));
    }
}

/// A root that is a link is never cleaned, and without a root nothing is removed.
pub proof fn a_linked_root_is_never_cleaned(
    root: &LoginRoot,
    entries: &Vec<LoginEntry>,
    r: Result<CleanupPlan, AccountError>,
)
    requires
        call_ensures(cleanup_abandoned_logins, (root, entries), r),
    ensures
        *root is Linked ==> r is Err && r->Err_0@ is LinkedRoot,
        *root is Failed ==> r is Err,
        *root is NotFound ==> r is Ok && r->Ok_0.remove@.len() == 0,
        *root is Present ==> r is Ok && r->Ok_0.remove@ == abandoned(
            entries@,
            entries@.len() as int,
        ),
{
}

/// An entry is removed exactly where an abandoned sign-in left it, and a failure is told only of one
/// that is named by a UUID.
pub proof fn an_entry_is_removed_where_it_is_abandoned(entry: &LoginEntry, r: EntryFate)
    requires
        call_ensures(cleanup_login_entry, (entry,), r),
    ensures
        r is Remove <==> is_abandoned(*entry),
        uuid_number(entry.name@) is None ==> r is Keep,
        entry.state is Unreadable && uuid_number(entry.name@) is Some ==> r is Fail,
{
}

/// A cleanup succeeds exactly where no entry failed.
pub proof fn a_cleanup_succeeds_where_nothing_failed(
    failures: &Vec<Option<String>>,
    r: Result<(), AccountError>,
)
    requires
        call_ensures(cleanup_outcome, (failures,), r),
    ensures
        r is Ok <==> forall|j: int| 0 <= j < failures@.len() ==> (#[trigger] failures@[j]) is None,
{
    the_first_failure_is_told(failures@, 0);
}

/// A sign-in that is cancelled stays so until a new one begins.
pub proof fn a_sign_in_is_cancelled_until_the_next()
    ensures
        forall|flag: &mut LoginFlag| #[trigger]
            call_ensures(cancel_login, (flag,), ()) ==> final(flag).cancelled,
        forall|flag: &mut LoginFlag| #[trigger]
            call_ensures(begin_login, (flag,), ()) ==> !final(flag).cancelled,
{
}

} // verus!
