//! Finding, adding, switching and removing accounts.

use vstd::prelude::*;
use crate::codex_accounts::api::{credentials_in_text, identity_from_credentials, load_identity, parse_credentials_json, ApiErrorView, AuthBackedIdentity, CodexApiError, FileRead, IdentityView};
use crate::codex_accounts::login_runner::{CodexLoginOutcome, LoginView};
use crate::codex_accounts::models::{AccountView, CodexAccount, CodexAccountSource, HomePath, HomeView};
use crate::json::{as_text, json_parsed, is_readable, json_pretty, lemma_readable_insert, lemma_readable_member, lookup, lookup_object, member, member_object, parse_json, reads_as, write_json_pretty, Json, JsonValue};
use crate::moment::Moment;
use crate::outside::{clock, formatted, fresh_uuid, is_instant, is_reading, parse_uuid, uuid_number, write_formatted, SLUG_FORMAT};
use crate::sorting::{is_stable_order, key_of_text, key_views, stable_order, text_key};
use crate::text::{concat2, concat3, contains, copy_text, either, ends_with, glimpsed, has_part, lowercase, or_empty, parted_last, replace, replaced, rsplit_once, same, seen, to_lowercase, trim, trimmed, views};

verus! {

/// What went wrong with an account.
#[derive(Debug)]
pub enum CodexAccountManagerError {
    Message(String),
    Io(String),
}

impl CodexAccountManagerError {
    /// The error as shown to the user.
    pub open spec fn text(self) -> Seq<char> {
        match self {
            CodexAccountManagerError::Message(s) => s@,
            CodexAccountManagerError::Io(s) => s@,
        }
    }

    /// The error as shown to the user.
    pub fn to_text(&self) -> (r: String)
        ensures
            r@ == self.text(),
    {
        match self {
            CodexAccountManagerError::Message(s) => s.clone(),
            CodexAccountManagerError::Io(s) => s.clone(),
        }
    }

    /// An error of an account's credentials, as an error of the account.
    pub fn from_api_error(error: &CodexApiError) -> (r: Self)
        ensures
            r is Message,
            r.text() == api_text(error@),
    {
        CodexAccountManagerError::Message(error.to_text())
    }
}

/// An error of an account's credentials as shown to the user.
pub open spec fn api_text(e: ApiErrorView) -> Seq<char> {
    match e {
        ApiErrorView::Message(s) => s,
        ApiErrorView::Network(s) => "network error: "@ + s,
        ApiErrorView::Parse(s) => "failed to parse Codex payload: "@ + s,
    }
}

/// What a switch of the active account came to.
#[derive(Debug)]
pub struct CodexSwitchResult {
    pub materialized_account: Option<CodexAccount>,
    pub backup_path: Option<String>,
    pub ambient_account: Option<CodexAccount>,
    pub desktop_session_backup_path: Option<String>,
    pub desktop_session_restore_path: Option<String>,
    pub desktop_session_restore_exists: bool,
}

/// Finds, adds and switches accounts.
#[derive(Debug)]
pub struct CodexAccountManager;

/// An account as found at a home, before it is matched with what is stored.
pub open spec fn candidate(
    identity: IdentityView,
    home: HomeView,
    source: CodexAccountSource,
    id: u128,
    now: Moment,
) -> AccountView {
    AccountView {
        id,
        nickname: None,
        email_hint: identity.email,
        auth_subject: identity.auth_subject,
        provider_account_id: identity.provider_account_id,
        home,
        source,
        created_at: now,
        updated_at: now,
        last_authenticated_at: None,
    }
}

/// An account as found at a home, given a number and a time for it.
pub fn candidate_account_at(
    identity: &AuthBackedIdentity,
    home: &HomePath,
    source: CodexAccountSource,
    id: u128,
    now: Moment,
) -> (r: CodexAccount)
    ensures
        r@ == candidate(identity@, home@, source, id, now),
{
    CodexAccount::new(
        id,
        None,
        copy_text(&identity.email),
        copy_text(&identity.auth_subject),
        copy_text(&identity.provider_account_id),
        home.clone(),
        source,
        now,
        now,
        None,
    )
}

/// An account as found at a home, under a fresh number and the present time.
pub fn candidate_account(
    identity: &AuthBackedIdentity,
    home: &HomePath,
    source: CodexAccountSource,
) -> (r: CodexAccount)
    ensures
        r@ == candidate(identity@, home@, source, r.id, r.created_at),
        is_reading(r.created_at),
{
    candidate_account_at(identity, home, source, fresh_uuid(), clock())
}

/// Whom a candidate belongs to depends on neither its number nor its time.
pub proof fn candidates_match_by_owner_alone(
    identity: IdentityView,
    home: HomeView,
    source: CodexAccountSource,
    a: u128,
    b: u128,
    s: Moment,
    t: Moment,
    other: AccountView,
)
    ensures
        candidate(identity, home, source, a, s).same_owner(other) == candidate(
            identity,
            home,
            source,
            b,
            t,
        ).same_owner(other),
{
}

pub open spec fn account_views(v: Seq<CodexAccount>) -> Seq<AccountView> {
    v.map_values(|a: CodexAccount| a@)
}

/// The position of the first stored account of the owner of `who`.
pub open spec fn first_match(existing: Seq<AccountView>, who: AccountView, i: int) -> Option<int>
    decreases existing.len() - i,
{
    if i >= existing.len() {
        None
    } else if who.same_owner(existing[i]) {
        Some(i)
    } else {
        first_match(existing, who, i + 1)
    }
}

/// The first stored account of the owner of `who`.
pub open spec fn stored_match(existing: Seq<AccountView>, who: AccountView) -> Option<AccountView> {
    match first_match(existing, who, 0) {
        Some(i) => Some(existing[i]),
        None => None,
    }
}

/// The position of the first stored account of the owner of `who`.
pub fn find_match(existing: &Vec<CodexAccount>, who: &CodexAccount) -> (r: Option<usize>)
    ensures
        r matches Some(i) ==> i < existing@.len() && first_match(
            account_views(existing@),
            who@,
            0,
        ) == Some(i as int),
        r is None <==> first_match(account_views(existing@), who@, 0) is None,
{
    let mut i: usize = 0;
    while i < existing.len()
        invariant
            i <= existing@.len(),
            first_match(account_views(existing@), who@, 0) == first_match(
                account_views(existing@),
                who@,
                i as int,
            ),
        decreases existing@.len() - i,
    {
        if who.matches(&existing[i]) {
            return Some(i);
        }
        i += 1;
    }
    None
}

/// An account found at a home. What is stored of its owner fills in what the credentials do
/// not say.
pub open spec fn discovered(
    matched: Option<AccountView>,
    identity: IdentityView,
    home: HomeView,
    source: CodexAccountSource,
    discovered_at: Moment,
    fresh_id: u128,
) -> AccountView {
    match matched {
        Some(m) => AccountView {
            id: m.id,
            nickname: m.nickname,
            email_hint: either(identity.email, m.email_hint),
            auth_subject: either(identity.auth_subject, m.auth_subject),
            provider_account_id: either(identity.provider_account_id, m.provider_account_id),
            home,
            source,
            created_at: m.created_at,
            updated_at: m.updated_at.latest(discovered_at),
            last_authenticated_at: match m.last_authenticated_at {
                Some(t) => Some(t),
                None => Some(discovered_at),
            },
        },
        None => AccountView {
            id: fresh_id,
            nickname: None,
            email_hint: identity.email,
            auth_subject: identity.auth_subject,
            provider_account_id: identity.provider_account_id,
            home,
            source,
            created_at: discovered_at,
            updated_at: discovered_at,
            last_authenticated_at: Some(discovered_at),
        },
    }
}

/// An optional text, or the other one.
fn text_or(a: &Option<String>, b: &Option<String>) -> (r: Option<String>)
    ensures
        seen(r) == either(seen(*a), seen(*b)),
{
    match a {
        Some(s) => Some(s.clone()),
        None => copy_text(b),
    }
}

/// An account found at a home.
pub fn build_discovered_account(
    matched: Option<&CodexAccount>,
    identity: &AuthBackedIdentity,
    home: &HomePath,
    source: CodexAccountSource,
    discovered_at: Moment,
    fresh_id: u128,
) -> (r: CodexAccount)
    ensures
        r@ == discovered(
            match matched {
                Some(m) => Some(m@),
                None => None,
            },
            identity@,
            home@,
            source,
            discovered_at,
            fresh_id,
        ),
{
    match matched {
        Some(m) => CodexAccount::new(
            m.id,
            copy_text(&m.nickname),
            text_or(&identity.email, &m.email_hint),
            text_or(&identity.auth_subject, &m.auth_subject),
            text_or(&identity.provider_account_id, &m.provider_account_id),
            home.clone(),
            source,
            m.created_at,
            m.updated_at.later(discovered_at),
            match m.last_authenticated_at {
                Some(t) => Some(t),
                None => Some(discovered_at),
            },
        ),
        None => CodexAccount::new(
            fresh_id,
            None,
            copy_text(&identity.email),
            copy_text(&identity.auth_subject),
            copy_text(&identity.provider_account_id),
            home.clone(),
            source,
            discovered_at,
            discovered_at,
            Some(discovered_at),
        ),
    }
}

/// What lies at a home directory.
pub struct HomeEntry {
    pub home: HomePath,
    /// What reading the `auth.json` there came to.
    pub auth_file: FileRead,
    /// When the account there was last changed.
    pub discovered_at: Moment,
}

/// The identity at a home; `None` where it cannot be read or names nobody.
pub open spec fn identity_at(auth_file: FileRead) -> Option<IdentityView> {
    match auth_file {
        FileRead::Contents(content) => match credentials_in_text(content@) {
            Ok(c) => if c.identity().email is None && c.identity().provider_account_id is None {
                None
            } else {
                Some(c.identity())
            },
            Err(_) => None,
        },
        _ => None,
    }
}

/// The identity at a home; `None` where it cannot be read or names nobody.
fn read_identity(auth_file: &FileRead) -> (r: Option<AuthBackedIdentity>)
    ensures
        r matches Some(i) ==> identity_at(*auth_file) == Some(i@),
        r is None <==> identity_at(*auth_file) is None,
{
    match load_identity(auth_file) {
        Ok(identity) => if identity.email.is_none() && identity.provider_account_id.is_none() {
            None
        } else {
            Some(identity)
        },
        Err(_) => None,
    }
}

/// The account at a home.
pub open spec fn account_at(
    entry: HomeEntry,
    existing: Seq<AccountView>,
    source: CodexAccountSource,
    fresh_id: u128,
) -> Option<AccountView> {
    match identity_at(entry.auth_file) {
        None => None,
        Some(identity) => Some(
            discovered(
                stored_match(
                    existing,
                    candidate(identity, entry.home@, source, fresh_id, entry.discovered_at),
                ),
                identity,
                entry.home@,
                source,
                entry.discovered_at,
                fresh_id,
            ),
        ),
    }
}

/// The account at a home, `fresh_id` being its number where it is not stored yet.
pub fn discover_account(
    entry: &HomeEntry,
    existing: &Vec<CodexAccount>,
    source: CodexAccountSource,
    fresh_id: u128,
) -> (r: Option<CodexAccount>)
    ensures
        r matches Some(a) ==> account_at(*entry, account_views(existing@), source, fresh_id)
            == Some(a@),
        r is None <==> account_at(*entry, account_views(existing@), source, fresh_id) is None,
{
    match read_identity(&entry.auth_file) {
        None => None,
        Some(identity) => {
            let who = candidate_account_at(
                &identity,
                &entry.home,
                source,
                fresh_id,
                entry.discovered_at,
            );
            let matched = match find_match(existing, &who) {
                Some(i) => Some(&existing[i]),
                None => None,
            };
            Some(
                build_discovered_account(
                    matched,
                    &identity,
                    &entry.home,
                    source,
                    entry.discovered_at,
                    fresh_id,
                ),
            )
        },
    }
}

/// An account found again keeps the number, the nickname and the creation time that are
/// stored for it, and does not go back in time. Its home is where it was found.
pub proof fn discovery_keeps_what_is_stored(
    entry: HomeEntry,
    existing: Seq<AccountView>,
    source: CodexAccountSource,
    fresh_id: u128,
)
    requires
        account_at(entry, existing, source, fresh_id) is Some,
    ensures
        ({
            let found = account_at(entry, existing, source, fresh_id)->Some_0;
            let who = candidate(
                identity_at(entry.auth_file)->Some_0,
                entry.home@,
                source,
                fresh_id,
                entry.discovered_at,
            );
            &&& found.home == entry.home@
            &&& found.source == source
            &&& match stored_match(existing, who) {
                Some(m) => found.id == m.id && found.nickname == m.nickname && found.created_at
                    == m.created_at && !found.updated_at.precedes(m.updated_at),
                None => found.id == fresh_id,
            }
        }),
{
}

/// The key by which homes are ordered: the name of the directory in small letters.
pub open spec fn home_key(home: HomeView) -> Seq<i64> {
    text_key(lowercase_or_empty(home.file_name))
}

pub open spec fn lowercase_or_empty(name: Option<Seq<char>>) -> Seq<char> {
    match name {
        Some(n) => lowercase(n),
        None => Seq::empty(),
    }
}

pub open spec fn home_keys(entries: Seq<HomeEntry>) -> Seq<Seq<i64>> {
    entries.map_values(|e: HomeEntry| home_key(e.home@))
}

/// The accounts at the first `k` homes of an order.
pub open spec fn accounts_in_order(
    entries: Seq<HomeEntry>,
    fresh_ids: Seq<u128>,
    existing: Seq<AccountView>,
    order: Seq<usize>,
    k: int,
) -> Seq<AccountView>
    decreases k,
{
    if k <= 0 {
        Seq::empty()
    } else {
        let rest = accounts_in_order(entries, fresh_ids, existing, order, k - 1);
        let i = order[k - 1] as int;
        match account_at(entries[i], existing, CodexAccountSource::ManagedByApp, fresh_ids[i]) {
            Some(a) => rest.push(a),
            None => rest,
        }
    }
}

/// The account that is used to complete a sign-in, given who signed in.
pub open spec fn authenticated(
    home: HomeView,
    source: CodexAccountSource,
    existing: Option<AccountView>,
    identity: IdentityView,
    now: Moment,
    fresh_id: u128,
) -> AccountView {
    match existing {
        Some(e) => AccountView {
            id: e.id,
            nickname: e.nickname,
            email_hint: either(identity.email, e.email_hint),
            auth_subject: either(identity.auth_subject, e.auth_subject),
            provider_account_id: either(identity.provider_account_id, e.provider_account_id),
            home,
            source,
            created_at: e.created_at,
            updated_at: now,
            last_authenticated_at: Some(now),
        },
        None => AccountView {
            id: fresh_id,
            nickname: None,
            email_hint: identity.email,
            auth_subject: identity.auth_subject,
            provider_account_id: identity.provider_account_id,
            home,
            source,
            created_at: now,
            updated_at: now,
            last_authenticated_at: Some(now),
        },
    }
}

/// What the user is told of a sign-in that did not succeed.
pub open spec fn login_error_text(outcome: LoginView) -> Option<Seq<char>> {
    match outcome {
        LoginView::Cancelled => Some("Account setup cancelled."@),
        LoginView::MissingBinary => Some(
            "Codex CLI could not be found. Install Codex Desktop or the Codex CLI, then restart CodexBar."@,
        ),
        LoginView::TimedOut(_) => Some("The Codex sign-in flow timed out."@),
        LoginView::LaunchFailed(output) => Some(
            "Failed to start the Codex sign-in flow: "@ + output,
        ),
        LoginView::Failed(output) => Some("The Codex sign-in flow did not complete.\n"@ + output),
        LoginView::Success(_) => None,
    }
}

/// What the user is told of a sign-in that did not succeed.
pub fn login_error(outcome: &CodexLoginOutcome) -> (r: Option<String>)
    ensures
        seen(r) == login_error_text(outcome@),
{
    match outcome {
        CodexLoginOutcome::Cancelled => Some("Account setup cancelled.".to_owned()),
        CodexLoginOutcome::MissingBinary => Some(
            "Codex CLI could not be found. Install Codex Desktop or the Codex CLI, then restart CodexBar.".to_owned(),
        ),
        CodexLoginOutcome::TimedOut(_) => Some("The Codex sign-in flow timed out.".to_owned()),
        CodexLoginOutcome::LaunchFailed(output) => Some(
            concat2("Failed to start the Codex sign-in flow: ", output.as_str()),
        ),
        CodexLoginOutcome::Failed(output) => Some(
            concat2("The Codex sign-in flow did not complete.\n", output.as_str()),
        ),
        CodexLoginOutcome::Success(_) => None,
    }
}

/// A copy of an account with files of its own.
pub open spec fn materialized(account: AccountView, home: HomeView, now: Moment) -> AccountView {
    AccountView {
        home,
        source: CodexAccountSource::ManagedByApp,
        updated_at: now,
        last_authenticated_at: match account.last_authenticated_at {
            Some(t) => Some(t),
            None => Some(now),
        },
        ..account
    }
}

/// The copy of an account belongs to the same owner wherever the owner is named.
pub proof fn materialized_account_keeps_its_owner(account: AccountView, home: HomeView, now: Moment)
    requires
        crate::codex_accounts::models::identifier(account.provider_account_id) is Some
            || crate::codex_accounts::models::identifier(account.auth_subject) is Some
            || crate::codex_accounts::models::identifier(account.email_hint) is Some,
    ensures
        materialized(account, home, now).same_owner(account),
        materialized(account, home, now).id == account.id,
        materialized(account, home, now).source.owned(),
{
}

/// Whether the account that is active has to be copied before another takes its place.
pub open spec fn must_materialize(ambient: Option<AccountView>, target: AccountView) -> bool {
    ambient matches Some(a) && a.source == CodexAccountSource::Ambient && !a.same_owner(target)
}

/// The homes that belong to an account and are to be removed with it: its own first, then
/// those among the first `k` entries that hold the same owner, each once.
pub open spec fn homes_of(
    account: AccountView,
    entries: Seq<HomeEntry>,
    fresh_ids: Seq<u128>,
    k: int,
) -> Seq<HomeView>
    decreases k,
{
    if k <= 0 {
        seq![account.home]
    } else {
        let rest = homes_of(account, entries, fresh_ids, k - 1);
        let e = entries[k - 1];
        match account_at(e, seq![account], CodexAccountSource::ManagedByApp, fresh_ids[k - 1]) {
            Some(found) => if found.same_owner(account) && !has_home(rest, e.home@.standardized) {
                rest.push(e.home@)
            } else {
                rest
            },
            None => rest,
        }
    }
}

/// A home with the given standardized path is among `homes`.
pub open spec fn has_home(homes: Seq<HomeView>, key: Seq<char>) -> bool {
    exists|i: int| 0 <= i < homes.len() && (#[trigger] homes[i]).standardized == key
}

pub open spec fn home_views(v: Seq<HomePath>) -> Seq<HomeView> {
    v.map_values(|h: HomePath| h@)
}

fn holds_home(homes: &Vec<HomePath>, key: &str) -> (r: bool)
    ensures
        r == has_home(home_views(homes@), key@),
{
    let mut i: usize = 0;
    while i < homes.len()
        invariant
            i <= homes@.len(),
            forall|j: int| 0 <= j < i ==> (#[trigger] home_views(homes@)[j]).standardized != key@,
        decreases homes@.len() - i,
    {
        if same(homes[i].standardized.as_str(), key) {
            assert(home_views(homes@)[i as int].standardized == key@);
            return true;
        }
        i += 1;
    }
    false
}

/// No home is named twice, the account's own home comes first, and every other one holds an
/// account of the same owner.
pub proof fn homes_of_are_distinct(
    account: AccountView,
    entries: Seq<HomeEntry>,
    fresh_ids: Seq<u128>,
    k: int,
)
    requires
        0 <= k <= entries.len(),
    ensures
        ({
            let homes = homes_of(account, entries, fresh_ids, k);
            &&& homes.len() >= 1
            &&& homes[0] == account.home
            &&& forall|i: int, j: int|
                0 <= i < j < homes.len() ==> (#[trigger] homes[i]).standardized != (
                #[trigger] homes[j]).standardized
            &&& forall|i: int|
                1 <= i < homes.len() ==> exists|e: int|
                    #![trigger entries[e]]
                    0 <= e < k && entries[e].home@ == #[trigger] homes[i] && owned_by(
                        account,
                        entries[e],
                        fresh_ids[e],
                    )
        }),
    decreases k,
{
    if k > 0 {
        homes_of_are_distinct(account, entries, fresh_ids, k - 1);
        let rest = homes_of(account, entries, fresh_ids, k - 1);
        let homes = homes_of(account, entries, fresh_ids, k);
        if homes != rest {
            assert(!has_home(rest, entries[k - 1].home@.standardized));
            assert(homes == rest.push(entries[k - 1].home@));
            assert(owned_by(account, entries[k - 1], fresh_ids[k - 1]));
        }
        assert forall|i: int| 1 <= i < homes.len() implies exists|e: int|
            #![trigger entries[e]]
            0 <= e < k && entries[e].home@ == #[trigger] homes[i] && owned_by(
                account,
                entries[e],
                fresh_ids[e],
            ) by {
            if i < rest.len() {
                assert(homes[i] == rest[i]);
                let e = choose|e: int|
                    #![trigger entries[e]]
                    0 <= e < k - 1 && entries[e].home@ == rest[i] && owned_by(
                        account,
                        entries[e],
                        fresh_ids[e],
                    );
                assert(entries[e].home@ == homes[i]);
            } else {
                assert(entries[k - 1].home@ == homes[i]);
            }
        }
    }
}

/// The entry holds an account of the owner of `account`.
pub open spec fn owned_by(account: AccountView, entry: HomeEntry, fresh_id: u128) -> bool {
    account_at(entry, seq![account], CodexAccountSource::ManagedByApp, fresh_id) matches Some(found)
        && found.same_owner(account)
}

/// Whether `root` leads to `path`.
pub open spec fn leads_to(root: Seq<Seq<char>>, path: Seq<Seq<char>>) -> bool {
    root.is_prefix_of(path)
}

/// Whether a directory may be removed: it has to lie below the directory of managed homes.
/// Both paths are resolved and given by their parts.
pub fn check_removal(root: &Vec<String>, resolved: &Vec<String>) -> (r: Result<
    (),
    CodexAccountManagerError,
>)
    ensures
        r is Ok <==> leads_to(views(root@), views(resolved@)) && root@.len() < resolved@.len(),
        r matches Err(e) ==> e is Message && e.text() == (if !leads_to(
            views(root@),
            views(resolved@),
        ) {
            "This path is not an app-managed home directory."@
        } else {
            "Refusing to remove the managed-homes root."@
        }),
{
    let mut below = root.len() <= resolved.len();
    let mut i: usize = 0;
    while below && i < root.len()
        invariant
            root@.len() <= resolved@.len() || !below,
            i <= root@.len(),
            below ==> forall|j: int|
                0 <= j < i ==> #[trigger] views(root@)[j] == views(resolved@)[j],
            !below ==> !leads_to(views(root@), views(resolved@)),
        decreases root@.len() - i + (if below { 1int } else { 0int }),
    {
        if !same(root[i].as_str(), resolved[i].as_str()) {
            assert(views(root@)[i as int] != views(resolved@)[i as int]);
            below = false;
        } else {
            assert(views(root@)[i as int] == views(resolved@)[i as int]);
            i += 1;
        }
    }
    if !below {
        return Err(
            CodexAccountManagerError::Message(
                "This path is not an app-managed home directory.".to_owned(),
            ),
        );
    }
    assert(leads_to(views(root@), views(resolved@)));
    if root.len() == resolved.len() {
        return Err(
            CodexAccountManagerError::Message(
                "Refusing to remove the managed-homes root.".to_owned(),
            ),
        );
    }
    Ok(())
}

/// Whether a text, trimmed, is a UUID.
pub open spec fn is_uuid_like(value: Seq<char>) -> bool {
    uuid_number(trimmed(value)) is Some
}

/// Whether a text, trimmed, is a UUID.
pub fn looks_like_uuid(value: &str) -> (r: bool)
    ensures
        r == is_uuid_like(value@),
{
    parse_uuid(trim(value)).is_some()
}

/// The creator id that takes the place of `creator_id` when `target` becomes active. One that
/// names the target already stays; the previous account's id is replaced wherever it stands;
/// a bare UUID, or one behind the last `__`, is replaced by the target's id.
pub open spec fn creator_after(
    creator_id: Option<Seq<char>>,
    previous: Option<Seq<char>>,
    target: Seq<char>,
) -> Option<Seq<char>> {
    match creator_id {
        None => None,
        Some(raw) => {
            let creator = trimmed(raw);
            if creator.len() == 0 {
                None
            } else if creator == target || ("__"@ + target).is_suffix_of(creator) {
                Some(creator)
            } else if previous is Some && has_part(creator, previous->Some_0) {
                Some(replaced(creator, previous->Some_0, target))
            } else if is_uuid_like(creator) {
                Some(target)
            } else {
                match parted_last(creator, "__"@) {
                    Some((prefix, suffix)) => if is_uuid_like(suffix) {
                        Some(prefix + "__"@ + target)
                    } else {
                        None
                    },
                    None => None,
                }
            }
        },
    }
}

/// The creator id that takes the place of `creator_id` when `target_account_id` becomes active.
pub fn updated_creator_id(
    creator_id: Option<&str>,
    previous_account_id: Option<&str>,
    target_account_id: &str,
) -> (r: Option<String>)
    ensures
        seen(r) == creator_after(
            glimpsed(creator_id),
            glimpsed(previous_account_id),
            target_account_id@,
        ),
{
    let creator = match creator_id {
        Some(raw) => trim(raw),
        None => {
            return None;
        },
    };
    if creator.is_empty() {
        return None;
    }
    if same(creator, target_account_id) || ends_with(
        creator,
        concat2("__", target_account_id).as_str(),
    ) {
        return Some(creator.to_owned());
    }
    if let Some(previous) = previous_account_id {
        if contains(creator, previous) {
            return Some(replace(creator, previous, target_account_id));
        }
    }
    if looks_like_uuid(creator) {
        return Some(target_account_id.to_owned());
    }
    if let Some((prefix, suffix)) = rsplit_once(creator, "__") {
        if looks_like_uuid(suffix) {
            return Some(concat3(prefix, "__", target_account_id));
        }
    }
    None
}

/// The member under which the desktop application keeps its state.
pub const ATOM_STATE: &'static str = "electron-persisted-atom-state";

/// The desktop application's state after a switch; `None` where there is nothing to change.
pub open spec fn state_after(
    payload: JsonValue,
    previous: Option<Seq<char>>,
    target: Seq<char>,
) -> Option<JsonValue> {
    match payload {
        JsonValue::Object(top) => match member_object(top, ATOM_STATE@) {
            None => None,
            Some(atom) => match member_object(atom, "environment"@) {
                None => None,
                Some(environment) => match member(environment, "creator_id"@) {
                    None => None,
                    Some(v) => match creator_after(as_text(v), previous, target) {
                        None => None,
                        Some(updated) => if updated == or_empty(as_text(v)) {
                            None
                        } else {
                            Some(
                                JsonValue::Object(
                                    top.insert(
                                        ATOM_STATE@,
                                        JsonValue::Object(
                                            atom.insert(
                                                "environment"@,
                                                JsonValue::Object(
                                                    environment.insert(
                                                        "creator_id"@,
                                                        JsonValue::Text(updated),
                                                    ),
                                                ),
                                            ),
                                        ),
                                    ),
                                ),
                            )
                        },
                    },
                },
            },
        },
        _ => None,
    }
}

/// A switch keeps the desktop application's state readable.
proof fn lemma_state_stays_readable(
    payload: JsonValue,
    previous: Option<Seq<char>>,
    target: Seq<char>,
)
    requires
        is_readable(payload),
        state_after(payload, previous, target) is Some,
    ensures
        is_readable(state_after(payload, previous, target)->Some_0),
{
    let top = payload->Object_0;
    let atom = member_object(top, ATOM_STATE@)->Some_0;
    let environment = member_object(atom, "environment"@)->Some_0;
    let updated = JsonValue::Text(
        creator_after(as_text(environment["creator_id"@]), previous, target)->Some_0,
    );
    lemma_readable_member(top, ATOM_STATE@, 127);
    lemma_readable_member(atom, "environment"@, 126);
    lemma_readable_insert(environment, "creator_id"@, updated, 125);
    let inner = JsonValue::Object(environment.insert("creator_id"@, updated));
    lemma_readable_insert(atom, "environment"@, inner, 126);
    lemma_readable_insert(
        top,
        ATOM_STATE@,
        JsonValue::Object(atom.insert("environment"@, inner)),
        127,
    );
}

/// A switch changes the creator id in the desktop application's state and nothing else.
pub proof fn only_the_creator_id_changes(
    payload: JsonValue,
    previous: Option<Seq<char>>,
    target: Seq<char>,
)
    requires
        state_after(payload, previous, target) is Some,
    ensures
        ({
            let after = state_after(payload, previous, target)->Some_0;
            let atom = lookup_object(payload, ATOM_STATE@)->Some_0;
            let environment = member_object(atom, "environment"@)->Some_0;
            let atom_after = lookup_object(after, ATOM_STATE@)->Some_0;
            let environment_after = member_object(atom_after, "environment"@)->Some_0;
            &&& forall|k: Seq<char>|
                k != ATOM_STATE@ ==> #[trigger] lookup(after, k) == lookup(payload, k)
            &&& forall|k: Seq<char>|
                k != "environment"@ ==> #[trigger] member(atom_after, k) == member(atom, k)
            &&& forall|k: Seq<char>|
                k != "creator_id"@ ==> #[trigger] member(environment_after, k) == member(
                    environment,
                    k,
                )
            &&& member(environment_after, "creator_id"@) == Some(
                JsonValue::Text(
                    creator_after(
                        as_text(environment["creator_id"@]),
                        previous,
                        target,
                    )->Some_0,
                ),
            )
        }),
{
}

/// The desktop application's state after a switch, read as JSON.
pub fn rewrite_state(payload: &Json, previous_account_id: Option<&str>, target_account_id: &str) -> (r:
    Option<Json>)
    ensures
        r matches Some(j) ==> state_after(
            payload@,
            glimpsed(previous_account_id),
            target_account_id@,
        ) == Some(j@),
        r is None <==> state_after(payload@, glimpsed(previous_account_id), target_account_id@) is None,
{
    let top = match payload {
        Json::Object(top) => top,
        _ => {
            return None;
        },
    };
    let atom = match top.object(ATOM_STATE) {
        Some(atom) => atom,
        None => {
            return None;
        },
    };
    let environment = match atom.object("environment") {
        Some(environment) => environment,
        None => {
            return None;
        },
    };
    let creator = match environment.get("creator_id") {
        Some(v) => v.text(),
        None => {
            return None;
        },
    };
    let updated = match updated_creator_id(creator, previous_account_id, target_account_id) {
        Some(u) => u,
        None => {
            return None;
        },
    };
    let unchanged = match creator {
        Some(c) => same(updated.as_str(), c),
        None => updated.as_str().is_empty(),
    };
    proof {
        assert(updated@.len() == 0 ==> updated@ =~= Seq::<char>::empty());
    }
    if unchanged {
        return None;
    }
    let mut new_environment = environment.clone();
    new_environment.set("creator_id", Json::Text(updated));
    let mut new_atom = atom.clone();
    new_atom.set("environment", Json::Object(new_environment));
    let mut new_top = top.clone();
    new_top.set(ATOM_STATE, Json::Object(new_atom));
    Some(Json::Object(new_top))
}

impl CodexAccountManager {
    pub fn new() -> (r: Self)
        ensures
            r == CodexAccountManager,
    {
        CodexAccountManager
    }

    /// Whose account is active, given what reading the active `auth.json` came to.
    pub fn load_active_identity(&self, auth_file: &FileRead) -> (r: Option<AuthBackedIdentity>)
        ensures
            match auth_file {
                FileRead::Contents(content) => match credentials_in_text(content@) {
                    Ok(c) => r is Some && r->Some_0@ == c.identity(),
                    Err(_) => r is None,
                },
                _ => r is None,
            },
    {
        match load_identity(auth_file) {
            Ok(identity) => Some(identity),
            Err(_) => None,
        }
    }

    /// The account at the active home.
    pub fn discover_ambient_account(
        &self,
        entry: &HomeEntry,
        existing: &Vec<CodexAccount>,
        fresh_id: u128,
    ) -> (r: Option<CodexAccount>)
        ensures
            r matches Some(a) ==> account_at(
                *entry,
                account_views(existing@),
                CodexAccountSource::Ambient,
                fresh_id,
            ) == Some(a@),
            r is None <==> account_at(
                *entry,
                account_views(existing@),
                CodexAccountSource::Ambient,
                fresh_id,
            ) is None,
    {
        discover_account(entry, existing, CodexAccountSource::Ambient, fresh_id)
    }

    /// The accounts at the managed homes, in the order of the directories' names.
    /// `fresh_ids` holds a number for each home.
    pub fn discover_managed_accounts(
        &self,
        entries: &Vec<HomeEntry>,
        fresh_ids: &Vec<u128>,
        existing: &Vec<CodexAccount>,
    ) -> (r: Vec<CodexAccount>)
        requires
            fresh_ids@.len() == entries@.len(),
        ensures
            exists|order: Seq<usize>|
                #![trigger is_stable_order(home_keys(entries@), order)]
                is_stable_order(home_keys(entries@), order) && account_views(r@)
                    == accounts_in_order(
                    entries@,
                    fresh_ids@,
                    account_views(existing@),
                    order,
                    order.len() as int,
                ),
    {
        let mut keys: Vec<Vec<i64>> = Vec::new();
        let mut i: usize = 0;
        while i < entries.len()
            invariant
                i <= entries@.len(),
                key_views(keys@) == home_keys(entries@).take(i as int),
            decreases entries@.len() - i,
        {
            let name = match &entries[i].home.file_name {
                Some(name) => to_lowercase(name.as_str()),
                None => String::new(),
            };
            let key = key_of_text(name.as_str());
            let ghost before = keys@;
            keys.push(key);
            assert(key_views(keys@) =~= key_views(before).push(key@));
            assert(home_keys(entries@).take(i + 1) =~= home_keys(entries@).take(i as int).push(
                key@,
            ));
            i += 1;
        }
        assert(home_keys(entries@).take(i as int) =~= home_keys(entries@));
        let order = stable_order(&keys);
        let mut out: Vec<CodexAccount> = Vec::new();
        let mut k: usize = 0;
        while k < order.len()
            invariant
                k <= order@.len(),
                fresh_ids@.len() == entries@.len(),
                is_stable_order(home_keys(entries@), order@),
                account_views(out@) == accounts_in_order(
                    entries@,
                    fresh_ids@,
                    account_views(existing@),
                    order@,
                    k as int,
                ),
            decreases order@.len() - k,
        {
            let at: usize = order[k];
            if let Some(account) = discover_account(
                &entries[at],
                existing,
                CodexAccountSource::ManagedByApp,
                fresh_ids[at],
            ) {
                let ghost before = out@;
                out.push(account);
                assert(account_views(out@) =~= account_views(before).push(account@));
            }
            k += 1;
        }
        assert(is_stable_order(home_keys(entries@), order@));
        out
    }

    /// The account after a sign-in at `home`, or what the user is told instead.
    pub fn authenticate_account(
        &self,
        outcome: &CodexLoginOutcome,
        auth_file: &FileRead,
        home: &HomePath,
        source: CodexAccountSource,
        existing: Option<&CodexAccount>,
        now: Moment,
        fresh_id: u128,
    ) -> (r: Result<CodexAccount, CodexAccountManagerError>)
        ensures
            match login_error_text(outcome@) {
                Some(text) => r is Err && r->Err_0 is Message && r->Err_0.text() == text,
                None => match auth_file {
                    FileRead::Contents(content) => match credentials_in_text(content@) {
                        Err(e) => r is Err && r->Err_0 is Message && r->Err_0.text() == api_text(e),
                        Ok(c) => if c.identity().email is None && c.identity().provider_account_id is None {
                            r is Err && r->Err_0 is Message && r->Err_0.text()
                                == "Sign-in completed, but the account identity could not be read."@
                        } else {
                            r is Ok && r->Ok_0@ == authenticated(
                                home@,
                                source,
                                match existing {
                                    Some(e) => Some(e@),
                                    None => None,
                                },
                                c.identity(),
                                now,
                                fresh_id,
                            )
                        },
                    },
                    FileRead::NotFound => r is Err && r->Err_0 is Message && r->Err_0.text()
                        == "No `auth.json` was found for this account."@,
                    FileRead::Failed(e) => r is Err && r->Err_0 is Message && r->Err_0.text()
                        == "failed to parse Codex payload: "@ + ("Failed to read the auth file: "@
                        + e@),
                },
            },
    {
        if let Some(text) = login_error(outcome) {
            return Err(CodexAccountManagerError::Message(text));
        }
        let identity = match load_identity(auth_file) {
            Ok(identity) => identity,
            Err(e) => {
                return Err(CodexAccountManagerError::from_api_error(&e));
            },
        };
        if identity.email.is_none() && identity.provider_account_id.is_none() {
            return Err(
                CodexAccountManagerError::Message(
                    "Sign-in completed, but the account identity could not be read.".to_owned(),
                ),
            );
        }
        match existing {
            Some(e) => Ok(
                CodexAccount::new(
                    e.id,
                    copy_text(&e.nickname),
                    text_or(&identity.email, &e.email_hint),
                    text_or(&identity.auth_subject, &e.auth_subject),
                    text_or(&identity.provider_account_id, &e.provider_account_id),
                    home.clone(),
                    source,
                    e.created_at,
                    now,
                    Some(now),
                ),
            ),
            None => Ok(
                CodexAccount::new(
                    fresh_id,
                    None,
                    identity.email,
                    identity.auth_subject,
                    identity.provider_account_id,
                    home.clone(),
                    source,
                    now,
                    now,
                    Some(now),
                ),
            ),
        }
    }

    /// Whether the files of `account` may be removed at all.
    pub fn may_remove_files(&self, account: &CodexAccount) -> (r: bool)
        ensures
            r == account@.source.owned(),
    {
        account.source.owns_files()
    }

    /// The homes to be removed with an account. `fresh_ids` holds a number for each entry.
    pub fn managed_home_paths_matching(
        &self,
        account: &CodexAccount,
        entries: &Vec<HomeEntry>,
        fresh_ids: &Vec<u128>,
    ) -> (r: Vec<HomePath>)
        requires
            fresh_ids@.len() == entries@.len(),
        ensures
            home_views(r@) == homes_of(account@, entries@, fresh_ids@, entries@.len() as int),
    {
        let mut targets: Vec<HomePath> = Vec::new();
        targets.push(account.codex_home_path.clone());
        let mut stored: Vec<CodexAccount> = Vec::new();
        stored.push(account.clone());
        assert(account_views(stored@) =~= seq![account@]);
        assert(home_views(targets@) =~= seq![account@.home]);
        let mut k: usize = 0;
        while k < entries.len()
            invariant
                k <= entries@.len(),
                fresh_ids@.len() == entries@.len(),
                account_views(stored@) == seq![account@],
                home_views(targets@) == homes_of(account@, entries@, fresh_ids@, k as int),
            decreases entries@.len() - k,
        {
            if let Some(found) = discover_account(
                &entries[k],
                &stored,
                CodexAccountSource::ManagedByApp,
                fresh_ids[k],
            ) {
                if found.matches(account) && !holds_home(
                    &targets,
                    entries[k].home.standardized.as_str(),
                ) {
                    let ghost before = targets@;
                    targets.push(entries[k].home.clone());
                    assert(home_views(targets@) =~= home_views(before).push(
                        entries@[k as int].home@,
                    ));
                }
            }
            k += 1;
        }
        targets
    }

    /// What has to be done before `target` becomes the active account: whether the account
    /// that is active has to be copied first. Without an `auth.json` a target cannot be used.
    pub fn plan_switch(
        &self,
        target: &CodexAccount,
        target_has_auth: bool,
        ambient: Option<&CodexAccount>,
    ) -> (r: Result<bool, CodexAccountManagerError>)
        ensures
            r is Ok <==> target_has_auth,
            r matches Ok(copy_first) ==> copy_first == must_materialize(
                match ambient {
                    Some(a) => Some(a@),
                    None => None,
                },
                target@,
            ),
            r matches Err(e) ==> e is Message && e.text()
                == "The selected account does not contain `auth.json`."@,
    {
        if !target_has_auth {
            return Err(
                CodexAccountManagerError::Message(
                    "The selected account does not contain `auth.json`.".to_owned(),
                ),
            );
        }
        match ambient {
            Some(a) => Ok(a.source == CodexAccountSource::Ambient && !a.matches(target)),
            None => Ok(false),
        }
    }

    /// The copy of `account` at `home`. An account without an `auth.json` cannot be copied.
    pub fn materialize_as_managed(
        &self,
        account: &CodexAccount,
        source_has_auth: bool,
        home: &HomePath,
        now: Moment,
    ) -> (r: Result<CodexAccount, CodexAccountManagerError>)
        ensures
            r is Ok <==> source_has_auth,
            r matches Ok(a) ==> a@ == materialized(account@, home@, now),
            r matches Err(e) ==> e is Message && e.text()
                == "The current active account does not contain `auth.json`."@,
    {
        if !source_has_auth {
            return Err(
                CodexAccountManagerError::Message(
                    "The current active account does not contain `auth.json`.".to_owned(),
                ),
            );
        }
        Ok(
            CodexAccount::new(
                account.id,
                copy_text(&account.nickname),
                copy_text(&account.email_hint),
                copy_text(&account.auth_subject),
                copy_text(&account.provider_account_id),
                home.clone(),
                CodexAccountSource::ManagedByApp,
                account.created_at,
                now,
                match account.last_authenticated_at {
                    Some(t) => Some(t),
                    None => Some(now),
                },
            ),
        )
    }

    /// The provider's id of the account that becomes active: the stored one, else the one in
    /// its credentials.
    pub fn target_account_id(&self, target: &CodexAccount, auth_file: &FileRead) -> (r: Result<
        Option<String>,
        CodexApiError,
    >)
        ensures
            match target@.provider_account_id {
                Some(id) => r is Ok && seen(r->Ok_0) == Some(id),
                None => match auth_file {
                    FileRead::Contents(content) => match credentials_in_text(content@) {
                        Ok(c) => r is Ok && seen(r->Ok_0) == c.identity().provider_account_id,
                        Err(e) => r is Err && r->Err_0@ == e,
                    },
                    FileRead::NotFound => r is Err && r->Err_0@ == ApiErrorView::Message(
                        "No `auth.json` was found for this account."@,
                    ),
                    FileRead::Failed(e) => r is Err && r->Err_0@ == ApiErrorView::Parse(
                        "Failed to read the auth file: "@ + e@,
                    ),
                },
            },
    {
        if let Some(id) = &target.provider_account_id {
            return Ok(Some(id.clone()));
        }
        match load_identity(auth_file) {
            Ok(identity) => Ok(identity.provider_account_id),
            Err(e) => Err(e),
        }
    }

    /// The files of the desktop application's state that a switch to `target_account_id`
    /// rewrites.
    pub fn sync_ambient_global_state(&self, target_account_id: Option<&str>) -> (r: Vec<String>)
        ensures
            views(r@) == (match target_account_id {
                Some(_) => seq![
                    ".codex-global-state.json"@,
                    ".codex-global-state.json.bak"@,
                ],
                None => Seq::empty(),
            }),
    {
        let mut out: Vec<String> = Vec::new();
        if target_account_id.is_some() {
            out.push(".codex-global-state.json".to_owned());
            out.push(".codex-global-state.json.bak".to_owned());
        }
        assert(views(out@) =~= (match target_account_id {
            Some(_) => seq![".codex-global-state.json"@, ".codex-global-state.json.bak"@],
            None => Seq::empty(),
        }));
        out
    }

    /// The new contents of a file of the desktop application's state; `None` where it stays
    /// as it is.
    pub fn rewrite_creator_id(
        &self,
        content: &str,
        previous_account_id: Option<&str>,
        target_account_id: &str,
    ) -> (r: Option<String>)
        ensures
            seen(r) == (match json_parsed(content@) {
                Ok(payload) => match state_after(
                    payload,
                    glimpsed(previous_account_id),
                    target_account_id@,
                ) {
                    Some(after) => Some(json_pretty(after) + "\n"@),
                    None => None,
                },
                Err(_) => None,
            }),
            r matches Some(text) ==> reads_as(
                text@,
                state_after(
                    json_parsed(content@)->Ok_0,
                    glimpsed(previous_account_id),
                    target_account_id@,
                )->Some_0,
            ),
    {
        match parse_json(content) {
            Ok(payload) => match rewrite_state(&payload, previous_account_id, target_account_id) {
                Some(after) => {
                    proof {
                        lemma_state_stays_readable(
                            payload@,
                            glimpsed(previous_account_id),
                            target_account_id@,
                        );
                    }
                    Some(concat2(write_json_pretty(&after).as_str(), "\n"))
                },
                None => None,
            },
            Err(_) => None,
        }
    }

    /// What a switch came to. Paths of desktop sessions are only given where there is a
    /// desktop session.
    pub fn switch_result(
        &self,
        materialized_account: Option<CodexAccount>,
        backup_path: Option<String>,
        ambient_account: Option<CodexAccount>,
        has_session: bool,
        materialized_snapshot: Option<String>,
        target_snapshot: String,
        target_snapshot_filled: bool,
    ) -> (r: CodexSwitchResult)
        ensures
            r.materialized_account == materialized_account,
            r.backup_path == backup_path,
            r.ambient_account == ambient_account,
            r.desktop_session_backup_path == (if has_session && materialized_account is Some {
                materialized_snapshot
            } else {
                None
            }),
            r.desktop_session_restore_path == (if has_session {
                Some(target_snapshot)
            } else {
                None
            }),
            r.desktop_session_restore_exists == (has_session && target_snapshot_filled),
    {
        let copied = materialized_account.is_some();
        CodexSwitchResult {
            materialized_account,
            backup_path,
            ambient_account,
            desktop_session_backup_path: if has_session && copied {
                materialized_snapshot
            } else {
                None
            },
            desktop_session_restore_path: if has_session {
                Some(target_snapshot)
            } else {
                None
            },
            desktop_session_restore_exists: has_session && target_snapshot_filled,
        }
    }
}

/// A step of making another account the active one.
#[derive(Clone, Copy, Debug, PartialEq, Eq, Structural)]
pub enum SwitchStep {
    /// Copy the account that is active into a home of its own.
    Materialize,
    /// Make the active home where it is missing.
    CreateHome,
    /// Keep the active credentials, where there are any.
    BackUp,
    /// Put the target's credentials in the place of the active ones.
    CopyCredentials,
    /// Find out who the target is.
    FindTarget,
    /// Tell the desktop application's state files. What they come to does not count.
    SyncState,
}

/// The steps of a switch, in order. The first that fails ends it.
pub open spec fn steps_of_switch(copy_first: bool) -> Seq<SwitchStep> {
    (if copy_first {
        seq![SwitchStep::Materialize]
    } else {
        Seq::empty()
    }) + seq![
        SwitchStep::CreateHome,
        SwitchStep::BackUp,
        SwitchStep::CopyCredentials,
        SwitchStep::FindTarget,
        SwitchStep::SyncState,
    ]
}

/// The steps of a switch, in order, where `copy_first` says whether the active account has to
/// be copied. The first that fails ends it.
pub fn switch_steps(copy_first: bool) -> (r: Vec<SwitchStep>)
    ensures
        r@ == steps_of_switch(copy_first),
{
    let mut out: Vec<SwitchStep> = Vec::new();
    if copy_first {
        out.push(SwitchStep::Materialize);
    }
    out.push(SwitchStep::CreateHome);
    out.push(SwitchStep::BackUp);
    out.push(SwitchStep::CopyCredentials);
    out.push(SwitchStep::FindTarget);
    out.push(SwitchStep::SyncState);
    assert(out@ =~= steps_of_switch(copy_first));
    out
}

/// The active credentials are kept before anything takes their place, and an account that has
/// to be copied is copied before that.
pub proof fn credentials_are_kept_before_they_go(copy_first: bool, i: int)
    requires
        0 <= i < steps_of_switch(copy_first).len(),
        steps_of_switch(copy_first)[i] == SwitchStep::CopyCredentials,
    ensures
        0 < i,
        steps_of_switch(copy_first)[i - 1] == SwitchStep::BackUp,
        copy_first ==> steps_of_switch(copy_first)[0] == SwitchStep::Materialize,
{
}

/// A time as part of a file name.
pub fn timestamp_slug_at(now: Moment) -> (r: String)
    requires
        is_instant(now),
    ensures
        r@ == formatted(now, SLUG_FORMAT@),
{
    write_formatted(now, SLUG_FORMAT).unwrap()
}

/// The name of the file that keeps the credentials that were active at `now`.
pub fn backup_file_name(now: Moment) -> (r: String)
    requires
        is_instant(now),
    ensures
        r@ == "ambient-auth-"@ + formatted(now, SLUG_FORMAT@) + ".json"@,
{
    concat3("ambient-auth-", timestamp_slug_at(now).as_str(), ".json")
}

/// The key by which two paths of a home are held to be the same.
pub fn managed_home_key(home: &HomePath) -> (r: String)
    ensures
        r@ == home@.standardized,
{
    home.standardized.clone()
}

/// Which of two copies of one account's credentials takes the place of the other.
#[derive(Clone, Copy, Debug, PartialEq, Eq, Structural)]
pub enum CopyPlan {
    /// Both stay.
    Nothing,
    /// The managed copy was refreshed later.
    ManagedToAmbient,
    AmbientToManaged,
}

/// `a` was refreshed later than `b`; never refreshed is earlier than any time.
pub open spec fn refreshed_later(a: Option<Moment>, b: Option<Moment>) -> bool {
    match (a, b) {
        (Some(x), Some(y)) => y.precedes(x),
        (Some(_), None) => true,
        (None, _) => false,
    }
}

/// What to do with the active credentials and a managed copy of them, each with the resolved
/// path of its file. One file is no two copies, and copies of different accounts are left
/// alone; else the one that was refreshed later wins, the active one where neither was.
pub fn synchronize_active_copy(
    ambient_home: &HomePath,
    managed_home: &HomePath,
    ambient_path: &str,
    managed_path: &str,
    ambient_json: &str,
    managed_json: &str,
) -> (r: Result<CopyPlan, CodexApiError>)
    ensures
        if ambient_path@ == managed_path@ || ambient_json@ == managed_json@ {
            r == Ok::<CopyPlan, CodexApiError>(CopyPlan::Nothing)
        } else {
            match (credentials_in_text(ambient_json@), credentials_in_text(managed_json@)) {
                (Err(e), _) => r is Err && r->Err_0@ == e,
                (Ok(_), Err(e)) => r is Err && r->Err_0@ == e,
                (Ok(a), Ok(m)) => r == Ok::<CopyPlan, CodexApiError>(
                    if !candidate(
                        a.identity(),
                        ambient_home@,
                        CodexAccountSource::Ambient,
                        0,
                        (Moment { secs: 0, nanos: 0 }),
                    ).same_owner(
                        candidate(
                            m.identity(),
                            managed_home@,
                            CodexAccountSource::ManagedByApp,
                            0,
                            (Moment { secs: 0, nanos: 0 }),
                        ),
                    ) {
                        CopyPlan::Nothing
                    } else if refreshed_later(m.last_refresh, a.last_refresh) {
                        CopyPlan::ManagedToAmbient
                    } else {
                        CopyPlan::AmbientToManaged
                    },
                ),
            }
        },
{
    if same(ambient_path, managed_path) || same(ambient_json, managed_json) {
        return Ok(CopyPlan::Nothing);
    }
    let ambient = match parse_credentials_json(ambient_json) {
        Ok(c) => c,
        Err(e) => {
            return Err(e);
        },
    };
    let managed = match parse_credentials_json(managed_json) {
        Ok(c) => c,
        Err(e) => {
            return Err(e);
        },
    };
    let nowhere = Moment { secs: 0, nanos: 0 };
    let a = candidate_account_at(
        &identity_from_credentials(&ambient),
        ambient_home,
        CodexAccountSource::Ambient,
        0,
        nowhere,
    );
    let m = candidate_account_at(
        &identity_from_credentials(&managed),
        managed_home,
        CodexAccountSource::ManagedByApp,
        0,
        nowhere,
    );
    if !a.matches(&m) {
        return Ok(CopyPlan::Nothing);
    }
    let managed_later = match (managed.last_refresh, ambient.last_refresh) {
        (Some(x), Some(y)) => y.before(x),
        (Some(_), None) => true,
        (None, _) => false,
    };
    if managed_later {
        Ok(CopyPlan::ManagedToAmbient)
    } else {
        Ok(CopyPlan::AmbientToManaged)
    }
}

/// An account found at a home carries every mark that the credentials there name, whether or not
/// anything is stored of its owner; what they do not name is what is stored, or nothing.
pub proof fn a_found_account_carries_its_credentials_marks(
    matched: Option<AccountView>,
    identity: IdentityView,
    home: HomeView,
    source: CodexAccountSource,
    at: Moment,
    fresh_id: u128,
)
    ensures
        ({
            let found = discovered(matched, identity, home, source, at, fresh_id);
            &&& identity.email is Some ==> found.email_hint == identity.email
            &&& identity.auth_subject is Some ==> found.auth_subject == identity.auth_subject
            &&& identity.provider_account_id is Some ==> found.provider_account_id
                == identity.provider_account_id
            &&& matched matches Some(m) ==> {
                &&& identity.email is None ==> found.email_hint == m.email_hint
                &&& identity.auth_subject is None ==> found.auth_subject == m.auth_subject
                &&& identity.provider_account_id is None ==> found.provider_account_id
                    == m.provider_account_id
                &&& found.id == m.id
                &&& found.nickname == m.nickname
                &&& found.created_at == m.created_at
                &&& m.updated_at.precedes(at) ==> found.updated_at == at
                &&& at.precedes(m.updated_at) ==> found.updated_at == m.updated_at
                &&& m.last_authenticated_at is Some ==> found.last_authenticated_at
                    == m.last_authenticated_at
            }
            &&& matched is None ==> {
                &&& found.id == fresh_id
                &&& found.nickname is None
                &&& identity.email is None ==> found.email_hint is None
                &&& identity.auth_subject is None ==> found.auth_subject is None
                &&& identity.provider_account_id is None ==> found.provider_account_id is None
                &&& found.created_at == at
                &&& found.updated_at == at
            }
            &&& found.last_authenticated_at is Some
            &&& found.home == home
            &&& found.source == source
        }),
{
}

/// A candidate carries the marks of its credentials, and lies where it was found.
pub proof fn a_candidate_carries_its_credentials_marks(
    identity: IdentityView,
    home: HomeView,
    source: CodexAccountSource,
    id: u128,
    now: Moment,
)
    ensures
        ({
            let c = candidate(identity, home, source, id, now);
            &&& c.id == id
            &&& c.nickname is None
            &&& c.email_hint == identity.email
            &&& c.auth_subject == identity.auth_subject
            &&& c.provider_account_id == identity.provider_account_id
            &&& c.home == home
            &&& c.source == source
            &&& c.created_at == now
            &&& c.updated_at == now
            &&& c.last_authenticated_at is None
        }),
{
}

/// The stored account of an owner is one that belongs to that owner, and none that stands before it
/// does; where none is found, none of the stored accounts does.
pub proof fn the_stored_account_is_the_first_of_its_owner(
    existing: Seq<AccountView>,
    who: AccountView,
    i: int,
)
    requires
        0 <= i,
    ensures
        match first_match(existing, who, i) {
            Some(k) => i <= k < existing.len() && who.same_owner(existing[k]) && forall|j: int|
                i <= j < k ==> !who.same_owner(#[trigger] existing[j]),
            None => forall|j: int|
                i <= j < existing.len() ==> !who.same_owner(#[trigger] existing[j]),
        },
        i == 0 ==> match stored_match(existing, who) {
            Some(m) => who.same_owner(m) && existing.contains(m),
            None => forall|j: int|
                0 <= j < existing.len() ==> !who.same_owner(#[trigger] existing[j]),
        },
    decreases existing.len() - i,
{
    if i < existing.len() && !who.same_owner(existing[i]) {
        the_stored_account_is_the_first_of_its_owner(existing, who, i + 1);
    }
}

/// At a home lies an account exactly where its credentials can be read and name an address or the
/// provider's account id. It is the stored account of its owner, found again, or a new one.
pub proof fn an_account_lies_where_credentials_name_one(
    entry: HomeEntry,
    existing: Seq<AccountView>,
    source: CodexAccountSource,
    fresh_id: u128,
)
    ensures
        ({
            let found = account_at(entry, existing, source, fresh_id);
            &&& entry.auth_file !is Contents ==> found is None
            &&& entry.auth_file is Contents ==> {
                let read = credentials_in_text(entry.auth_file->Contents_0@);
                &&& read is Err ==> found is None
                &&& read is Ok ==> {
                    let who = read->Ok_0.identity();
                    &&& found is Some <==> who.email is Some || who.provider_account_id is Some
                    &&& found is Some && who.email is Some ==> found->Some_0.email_hint == who.email
                    &&& found is Some && who.auth_subject is Some ==> found->Some_0.auth_subject
                        == who.auth_subject
                    &&& found is Some && who.provider_account_id is Some
                        ==> found->Some_0.provider_account_id == who.provider_account_id
                    &&& found is Some ==> found->Some_0.id == fresh_id || exists|j: int|
                        0 <= j < existing.len() && (#[trigger] existing[j]).id == found->Some_0.id
                }
            }
            &&& found is Some ==> found->Some_0.home == entry.home@ && found->Some_0.source == source
        }),
{
    if let Some(identity) = identity_at(entry.auth_file) {
        let who = candidate(identity, entry.home@, source, fresh_id, entry.discovered_at);
        the_stored_account_is_the_first_of_its_owner(existing, who, 0);
        if let Some(m) = stored_match(existing, who) {
            let j = existing.index_of(m);
            assert(existing[j].id == m.id);
        }
    }
}

/// A discovery at managed homes lists, for the homes in their order, the accounts that lie there:
/// every one, and nothing else.
pub proof fn every_managed_home_is_looked_at(
    entries: Seq<HomeEntry>,
    fresh_ids: Seq<u128>,
    existing: Seq<AccountView>,
    order: Seq<usize>,
    k: int,
)
    requires
        0 <= k,
    ensures
        ({
            let found = accounts_in_order(entries, fresh_ids, existing, order, k);
            &&& found.len() <= k
            &&& forall|j: int|
                #![trigger order[j]]
                0 <= j < k && account_at(
                    entries[order[j] as int],
                    existing,
                    CodexAccountSource::ManagedByApp,
                    fresh_ids[order[j] as int],
                ) is Some ==> found.contains(
                    account_at(
                        entries[order[j] as int],
                        existing,
                        CodexAccountSource::ManagedByApp,
                        fresh_ids[order[j] as int],
                    )->Some_0,
                )
            &&& forall|a: AccountView| #[trigger]
                found.contains(a) ==> exists|j: int|
                    #![trigger order[j]]
                    0 <= j < k && account_at(
                        entries[order[j] as int],
                        existing,
                        CodexAccountSource::ManagedByApp,
                        fresh_ids[order[j] as int],
                    ) == Some(a)
        }),
    decreases k,
{
    if k > 0 {
        every_managed_home_is_looked_at(entries, fresh_ids, existing, order, k - 1);
        let found = accounts_in_order(entries, fresh_ids, existing, order, k);
        let rest = accounts_in_order(entries, fresh_ids, existing, order, k - 1);
        let i = order[k - 1] as int;
        let here = account_at(entries[i], existing, CodexAccountSource::ManagedByApp, fresh_ids[i]);
        assert forall|a: AccountView| rest.contains(a) implies #[trigger] found.contains(a) by {
            let x = rest.index_of(a);
            assert(found[x] == a);
        }
        if let Some(a) = here {
            assert(found.last() == a);
            assert(found.contains(a));
        }
        assert forall|a: AccountView| #[trigger] found.contains(a) implies exists|j: int|
            #![trigger order[j]]
            0 <= j < k && account_at(
                entries[order[j] as int],
                existing,
                CodexAccountSource::ManagedByApp,
                fresh_ids[order[j] as int],
            ) == Some(a) by {
            let x = found.index_of(a);
            if x < rest.len() {
                assert(rest[x] == a);
                assert(rest.contains(a));
            } else {
                assert(here == Some(a));
                assert(order[k - 1] as int == i);
            }
        }
    }
}

/// Signing in again leaves an account what it is: its number, its nickname and the time at which it
/// was added stay, and so does every mark that the new credentials do not name. A fresh number is
/// used only where there was no account.
pub proof fn signing_in_again_keeps_the_account(
    home: HomeView,
    source: CodexAccountSource,
    existing: Option<AccountView>,
    identity: IdentityView,
    now: Moment,
    fresh_id: u128,
)
    ensures
        ({
            let r = authenticated(home, source, existing, identity, now, fresh_id);
            &&& existing matches Some(e) ==> {
                &&& r.id == e.id
                &&& r.nickname == e.nickname
                &&& r.created_at == e.created_at
                &&& identity.email is None ==> r.email_hint == e.email_hint
                &&& identity.auth_subject is None ==> r.auth_subject == e.auth_subject
                &&& identity.provider_account_id is None ==> r.provider_account_id
                    == e.provider_account_id
            }
            &&& existing is None ==> r.id == fresh_id && r.nickname is None && r.created_at == now
            &&& identity.email is Some ==> r.email_hint == identity.email
            &&& identity.auth_subject is Some ==> r.auth_subject == identity.auth_subject
            &&& identity.provider_account_id is Some ==> r.provider_account_id
                == identity.provider_account_id
            &&& existing is None && identity.email is None ==> r.email_hint is None
            &&& existing is None && identity.auth_subject is None ==> r.auth_subject is None
            &&& existing is None && identity.provider_account_id is None
                ==> r.provider_account_id is None
            &&& r.home == home
            &&& r.source == source
            &&& r.updated_at == now
            &&& r.last_authenticated_at == Some(now)
        }),
{
}

/// Only a sign-in that succeeded goes on; what any other one printed is told where it failed or
/// could not be started.
pub proof fn only_a_successful_sign_in_goes_on(output: Seq<char>)
    ensures
        login_error_text(LoginView::Success(output)) is None,
        login_error_text(LoginView::Cancelled) is Some,
        login_error_text(LoginView::MissingBinary) is Some,
        login_error_text(LoginView::TimedOut(output)) is Some,
        login_error_text(LoginView::Failed(output)) is Some && output.is_suffix_of(
            login_error_text(LoginView::Failed(output))->Some_0,
        ),
        login_error_text(LoginView::LaunchFailed(output)) is Some && output.is_suffix_of(
            login_error_text(LoginView::LaunchFailed(output))->Some_0,
        ),
{
    let a = "The Codex sign-in flow did not complete.\n"@;
    let b = "Failed to start the Codex sign-in flow: "@;
    assert((a + output).subrange(a.len() as int, (a + output).len() as int) =~= output);
    assert((b + output).subrange(b.len() as int, (b + output).len() as int) =~= output);
}

/// A copy of an account with files of its own is the same account: only its home, its source and
/// its times differ.
pub proof fn a_copied_account_is_the_same_account(account: AccountView, home: HomeView, now: Moment)
    ensures
        ({
            let r = materialized(account, home, now);
            &&& r.id == account.id
            &&& r.nickname == account.nickname
            &&& r.email_hint == account.email_hint
            &&& r.auth_subject == account.auth_subject
            &&& r.provider_account_id == account.provider_account_id
            &&& r.created_at == account.created_at
            &&& r.home == home
            &&& r.source == CodexAccountSource::ManagedByApp
            &&& r.updated_at == now
            &&& account.last_authenticated_at is Some ==> r.last_authenticated_at
                == account.last_authenticated_at
            &&& account.last_authenticated_at is None ==> r.last_authenticated_at == Some(now)
        }),
{
}

/// The active account is copied before another takes its place exactly where nothing else holds its
/// files and it is not the one that becomes active.
pub proof fn an_account_is_copied_before_it_would_be_lost(a: AccountView, target: AccountView)
    ensures
        a.source == CodexAccountSource::Ambient && !a.same_owner(target) ==> must_materialize(
            Some(a),
            target,
        ),
        a.same_owner(target) ==> !must_materialize(Some(a), target),
        a.source == CodexAccountSource::ManagedByApp ==> !must_materialize(Some(a), target),
        !must_materialize(None, target),
{
}

/// Every home that holds an account of the owner is removed with it.
pub proof fn every_home_of_the_owner_is_removed(
    account: AccountView,
    entries: Seq<HomeEntry>,
    fresh_ids: Seq<u128>,
    k: int,
    e: int,
)
    requires
        0 <= e < k <= entries.len(),
        owned_by(account, entries[e], fresh_ids[e]),
    ensures
        has_home(homes_of(account, entries, fresh_ids, k), entries[e].home@.standardized),
    decreases k,
{
    let homes = homes_of(account, entries, fresh_ids, k);
    let rest = homes_of(account, entries, fresh_ids, k - 1);
    if e < k - 1 {
        every_home_of_the_owner_is_removed(account, entries, fresh_ids, k - 1, e);
        let i = choose|i: int|
            0 <= i < rest.len() && (#[trigger] rest[i]).standardized
                == entries[e].home@.standardized;
        assert(homes[i] == rest[i]);
    } else if !has_home(rest, entries[e].home@.standardized) {
        assert(homes.last() == entries[e].home@);
        assert(homes[homes.len() - 1].standardized == entries[e].home@.standardized);
    }
}

/// A creator id names the account that becomes active: one that names it already stays, the
/// previous account's id gives way to it, and so does an id that stands alone or behind `__`.
/// What is blank, or names nobody, stays as it is.
pub proof fn a_creator_id_names_the_active_account(
    raw: Seq<char>,
    previous: Option<Seq<char>>,
    target: Seq<char>,
    prefix: Seq<char>,
)
    ensures
        creator_after(None, previous, target) is None,
        trimmed(raw).len() == 0 ==> creator_after(Some(raw), previous, target) is None,
        trimmed(raw).len() > 0 && trimmed(raw) == target ==> creator_after(
            Some(raw),
            previous,
            target,
        ) == Some(target),
        trimmed(raw).len() > 0 && trimmed(raw) == prefix + "__"@ + target ==> creator_after(
            Some(raw),
            previous,
            target,
        ) == Some(trimmed(raw)),
        trimmed(raw).len() > 0 && previous is None && uuid_number(trimmed(trimmed(raw))) is Some
            && trimmed(raw) != target && !("__"@ + target).is_suffix_of(trimmed(raw))
            ==> creator_after(Some(raw), previous, target) == Some(target),
        previous is None ==> (creator_after(Some(raw), previous, target) matches Some(r) ==> r
            == target || ("__"@ + target).is_suffix_of(r)),
{
    let creator = trimmed(raw);
    if creator == prefix + "__"@ + target {
        assert(creator =~= prefix + ("__"@ + target));
        assert(creator.subrange(prefix.len() as int, creator.len() as int) =~= "__"@ + target);
    }
    if let Some((p, suffix)) = parted_last(creator, "__"@) {
        let r = p + "__"@ + target;
        assert(r.subrange(p.len() as int, r.len() as int) =~= "__"@ + target);
    }
}

/// Of two copies of an account's credentials the one that was refreshed later counts; a copy that
/// was never refreshed is older than any that was, and of two that are equally old neither is later.
pub proof fn the_later_refresh_counts(a: Moment, b: Moment)
    ensures
        a.secs > b.secs ==> refreshed_later(Some(a), Some(b)) && !refreshed_later(Some(b), Some(a)),
        a.secs == b.secs && a.nanos > b.nanos ==> refreshed_later(Some(a), Some(b))
            && !refreshed_later(Some(b), Some(a)),
        !refreshed_later(Some(a), Some(a)),
        refreshed_later(Some(a), None),
        !refreshed_later(None, Some(a)),
        !refreshed_later(None, None),
{
}

/// A switch has the same steps whether or not an account is copied first, each once, and ends by
/// telling the desktop application.
pub proof fn a_switch_takes_every_step_once(copy_first: bool)
    ensures
        ({
            let steps = steps_of_switch(copy_first);
            let tail = steps_of_switch(false);
            &&& tail.len() == 5
            &&& steps == (if copy_first {
                seq![SwitchStep::Materialize] + tail
            } else {
                tail
            })
            &&& !tail.contains(SwitchStep::Materialize)
            &&& steps.contains(SwitchStep::CreateHome)
            &&& steps.contains(SwitchStep::BackUp)
            &&& steps.contains(SwitchStep::CopyCredentials)
            &&& steps.contains(SwitchStep::FindTarget)
            &&& steps.last() == SwitchStep::SyncState
            &&& steps[steps.len() - 2] == SwitchStep::FindTarget
        }),
{
    let tail = steps_of_switch(false);
    let steps = steps_of_switch(copy_first);
    let n = steps.len() as int;
    assert(steps =~= (if copy_first {
        seq![SwitchStep::Materialize] + tail
    } else {
        tail
    }));
    assert(steps[n - 5] == SwitchStep::CreateHome);
    assert(steps[n - 4] == SwitchStep::BackUp);
    assert(steps[n - 3] == SwitchStep::CopyCredentials);
    assert(steps[n - 2] == SwitchStep::FindTarget);
}

/// A discovery at a home gives the account that its credentials name, with every mark that they
/// name; an account of its owner that is stored already is found again, with its number and nickname.
pub proof fn a_discovery_carries_the_marks_of_its_credentials(
    matched: Option<&CodexAccount>,
    identity: &AuthBackedIdentity,
    home: &HomePath,
    source: CodexAccountSource,
    at: Moment,
    fresh_id: u128,
    r: CodexAccount,
)
    requires
        call_ensures(
            build_discovered_account,
            (matched, identity, home, source, at, fresh_id),
            r,
        ),
    ensures
        identity@.email is Some ==> r@.email_hint == identity@.email,
        identity@.auth_subject is Some ==> r@.auth_subject == identity@.auth_subject,
        identity@.provider_account_id is Some ==> r@.provider_account_id
            == identity@.provider_account_id,
        matched matches Some(m) ==> r@.id == m@.id && r@.nickname == m@.nickname && r@.created_at
            == m@.created_at,
        matched is None ==> r@.id == fresh_id && r@.nickname is None,
        r@.home == home@,
        r@.source == source,
{
}

/// After a sign-in that succeeded the account is the one that signed in: for an account that exists,
/// the same account, with its number, nickname and time of creation. A sign-in that failed, or whose
/// credentials name nobody, gives no account.
pub proof fn a_sign_in_keeps_the_account_that_exists(
    manager: &CodexAccountManager,
    outcome: &CodexLoginOutcome,
    auth_file: &FileRead,
    home: &HomePath,
    source: CodexAccountSource,
    existing: Option<&CodexAccount>,
    now: Moment,
    fresh_id: u128,
    r: Result<CodexAccount, CodexAccountManagerError>,
)
    requires
        call_ensures(
            CodexAccountManager::authenticate_account,
            (manager, outcome, auth_file, home, source, existing, now, fresh_id),
            r,
        ),
    ensures
        r is Ok ==> outcome@ is Success && *auth_file is Contents && credentials_in_text(
            auth_file->Contents_0@,
        ) is Ok,
        r matches Ok(a) ==> {
            let who = credentials_in_text(auth_file->Contents_0@)->Ok_0.identity();
            &&& existing matches Some(e) ==> a@.id == e@.id && a@.nickname == e@.nickname
                && a@.created_at == e@.created_at
            &&& existing is None ==> a@.id == fresh_id && a@.nickname is None && a@.created_at == now
            &&& who.email is Some ==> a@.email_hint == who.email
            &&& who.auth_subject is Some ==> a@.auth_subject == who.auth_subject
            &&& who.provider_account_id is Some ==> a@.provider_account_id
                == who.provider_account_id
            &&& who.email is Some || who.provider_account_id is Some
            &&& a@.home == home@
            &&& a@.last_authenticated_at == Some(now)
        },
        outcome@ !is Success ==> r is Err,
        outcome@ is Success && *auth_file is Contents && credentials_in_text(
            auth_file->Contents_0@,
        ) is Ok && credentials_in_text(auth_file->Contents_0@)->Ok_0.identity().email is Some
            ==> r is Ok,
{
}

/// An account becomes the active one only where it has credentials, and the account that was active
/// is copied first where it would be lost.
pub proof fn a_switch_needs_credentials(
    manager: &CodexAccountManager,
    target: &CodexAccount,
    has_auth: bool,
    ambient: Option<&CodexAccount>,
    r: Result<bool, CodexAccountManagerError>,
)
    requires
        call_ensures(CodexAccountManager::plan_switch, (manager, target, has_auth, ambient), r),
    ensures
        r is Ok <==> has_auth,
        r is Ok && ambient is None ==> !r->Ok_0,
        r is Ok ==> (ambient matches Some(a) ==> (r->Ok_0 <==> a@.source
            == CodexAccountSource::Ambient && !a@.same_owner(target@))),
{
}

/// A copy of an account is the same account at its new home; without credentials none is made.
pub proof fn a_copy_needs_credentials(
    manager: &CodexAccountManager,
    account: &CodexAccount,
    has_auth: bool,
    home: &HomePath,
    now: Moment,
    r: Result<CodexAccount, CodexAccountManagerError>,
)
    requires
        call_ensures(
            CodexAccountManager::materialize_as_managed,
            (manager, account, has_auth, home, now),
            r,
        ),
    ensures
        r is Ok <==> has_auth,
        r matches Ok(a) ==> a@.id == account@.id && a@.nickname == account@.nickname
            && a@.email_hint == account@.email_hint && a@.provider_account_id
            == account@.provider_account_id && a@.home == home@ && a@.source
            == CodexAccountSource::ManagedByApp,
{
}

/// The id of an account that becomes active is the stored one, and is read from its credentials
/// where none is stored.
pub proof fn the_stored_id_goes_before_the_one_in_the_credentials(
    manager: &CodexAccountManager,
    target: &CodexAccount,
    auth_file: &FileRead,
    r: Result<Option<String>, CodexApiError>,
)
    requires
        call_ensures(CodexAccountManager::target_account_id, (manager, target, auth_file), r),
    ensures
        target@.provider_account_id matches Some(id) ==> r is Ok && seen(r->Ok_0) == Some(id),
        target@.provider_account_id is None && *auth_file is Contents && credentials_in_text(
            auth_file->Contents_0@,
        ) is Ok ==> r is Ok && seen(r->Ok_0) == credentials_in_text(
            auth_file->Contents_0@,
        )->Ok_0.identity().provider_account_id,
        target@.provider_account_id is None && *auth_file !is Contents ==> r is Err,
{
}

/// A switch tells what became of the accounts and, only where there is a desktop session, where that
/// of the former account is kept and that of the new one is found.
pub proof fn a_switch_tells_where_sessions_lie(
    manager: &CodexAccountManager,
    copied: Option<CodexAccount>,
    backup: Option<String>,
    ambient: Option<CodexAccount>,
    has_session: bool,
    kept: Option<String>,
    target: String,
    filled: bool,
    r: CodexSwitchResult,
)
    requires
        call_ensures(
            CodexAccountManager::switch_result,
            (manager, copied, backup, ambient, has_session, kept, target, filled),
            r,
        ),
    ensures
        r.materialized_account == copied && r.backup_path == backup && r.ambient_account == ambient,
        has_session ==> r.desktop_session_restore_path == Some(target),
        !has_session ==> r.desktop_session_restore_path is None
            && r.desktop_session_backup_path is None && !r.desktop_session_restore_exists,
        has_session && copied is Some ==> r.desktop_session_backup_path == kept,
        copied is None ==> r.desktop_session_backup_path is None,
        r.desktop_session_restore_exists <==> has_session && filled,
{
}

/// Two copies of one account's credentials are brought together by the one that was refreshed later;
/// copies of different accounts, and two that are the same, are left alone.
pub proof fn the_later_copy_takes_the_place_of_the_other(
    ambient_home: &HomePath,
    managed_home: &HomePath,
    ambient_path: &str,
    managed_path: &str,
    ambient_json: &str,
    managed_json: &str,
    r: Result<CopyPlan, CodexApiError>,
)
    requires
        call_ensures(
            synchronize_active_copy,
            (ambient_home, managed_home, ambient_path, managed_path, ambient_json, managed_json),
            r,
        ),
    ensures
        ambient_path@ == managed_path@ || ambient_json@ == managed_json@ ==> r is Ok && r->Ok_0
            == CopyPlan::Nothing,
        ambient_path@ != managed_path@ && ambient_json@ != managed_json@ && credentials_in_text(
            ambient_json@,
        ) is Err ==> r is Err,
        r is Ok && r->Ok_0 == CopyPlan::ManagedToAmbient ==> {
            let a = credentials_in_text(ambient_json@)->Ok_0;
            let m = credentials_in_text(managed_json@)->Ok_0;
            &&& m.last_refresh is Some
            &&& a.last_refresh matches Some(t) ==> t.secs <= m.last_refresh->Some_0.secs
        },
        r is Ok && r->Ok_0 == CopyPlan::AmbientToManaged ==> {
            let a = credentials_in_text(ambient_json@)->Ok_0;
            let m = credentials_in_text(managed_json@)->Ok_0;
            m.last_refresh matches Some(t) ==> a.last_refresh is Some && t.secs
                <= a.last_refresh->Some_0.secs
        },
{
}

/// Only what lies below the directory of managed homes is removed, and never that directory itself.
pub proof fn only_what_lies_below_the_homes_is_removed(
    root: &Vec<String>,
    path: &Vec<String>,
    r: Result<(), CodexAccountManagerError>,
)
    requires
        call_ensures(check_removal, (root, path), r),
    ensures
        r is Ok ==> path@.len() > root@.len() && forall|i: int|
            0 <= i < root@.len() ==> (#[trigger] path@[i])@ == root@[i]@,
        path@.len() <= root@.len() ==> r is Err,
        path@.len() > root@.len() && (forall|i: int|
            0 <= i < root@.len() ==> (#[trigger] path@[i])@ == root@[i]@) ==> r is Ok,
{
    let n = root@.len() as int;
    let a = views(root@);
    let b = views(path@);
    if r is Ok {
        assert forall|i: int| 0 <= i < n implies (#[trigger] path@[i])@ == root@[i]@ by {
            assert(a[i] == b[i]);
        }
    }
    if path@.len() > n && (forall|i: int| 0 <= i < n ==> (#[trigger] path@[i])@ == root@[i]@) {
        assert(a =~= b.subrange(0, n));
    }
}

/// The files of an account are removed only where they are the application's own.
pub proof fn files_of_others_are_never_removed(
    manager: &CodexAccountManager,
    account: &CodexAccount,
    r: bool,
)
    requires
        call_ensures(CodexAccountManager::may_remove_files, (manager, account), r),
    ensures
        r <==> account@.source == CodexAccountSource::ManagedByApp,
{
}

/// The files that tell the desktop application of its account are rewritten where it is known.
pub proof fn both_state_files_are_rewritten(
    manager: &CodexAccountManager,
    id: Option<&str>,
    r: Vec<String>,
)
    requires
        call_ensures(CodexAccountManager::sync_ambient_global_state, (manager, id), r),
    ensures
        id is None ==> r@.len() == 0,
        id is Some ==> r@.len() == 2 && r@[0]@ == ".codex-global-state.json"@ && r@[1]@
            == ".codex-global-state.json.bak"@,
{
    assert(views(r@).len() == r@.len());
    if id is Some {
        assert(views(r@)[0] == r@[0]@ && views(r@)[1] == r@[1]@);
    }
}

/// What is told of a sign-in says what happened to it.
pub proof fn a_sign_in_that_failed_is_told_as_it_was(output: Seq<char>)
    ensures
        login_error_text(LoginView::Cancelled) == Some("Account setup cancelled."@),
        login_error_text(LoginView::MissingBinary) == Some(
            "Codex CLI could not be found. Install Codex Desktop or the Codex CLI, then restart CodexBar."@,
        ),
        login_error_text(LoginView::TimedOut(output)) == Some("The Codex sign-in flow timed out."@),
        login_error_text(LoginView::LaunchFailed(output)) == Some(
            "Failed to start the Codex sign-in flow: "@ + output,
        ),
        login_error_text(LoginView::Failed(output)) == Some(
            "The Codex sign-in flow did not complete.\n"@ + output,
        ),
{
}

/// Whose account is active is what its credentials name, and nobody's where they cannot be read.
pub proof fn the_active_identity_is_that_of_the_credentials(
    manager: &CodexAccountManager,
    file: &FileRead,
    r: Option<AuthBackedIdentity>,
)
    requires
        call_ensures(CodexAccountManager::load_active_identity, (manager, file), r),
    ensures
        r is Some <==> *file is Contents && credentials_in_text(file->Contents_0@) is Ok,
        r matches Some(who) ==> who@ == credentials_in_text(file->Contents_0@)->Ok_0.identity(),
{
}

} // verus!
