//! Accounts, removed accounts and usage snapshots.

use vstd::prelude::*;
use vstd::string::{StrSliceExecFns, StringExecFns};
use crate::moment::Moment;
use crate::outside::{absolute_path, clock, fresh_uuid, is_instant, is_reading, parse_rfc3339, path_file_name, single_part, rfc3339_moment, rfc3339_text, write_rfc3339};
use crate::quantity::{doubles_are_not_rounded, rounded, rounding_stays_within_a_hundred, round_double, two_to_64, LIMIT, ONE, Quantity, THOUSANDTH};
use crate::text::{borrow_text, chars_of, copy_text, digits, find_char, glimpsed, has_part, lowercase, same, same_option, seen, to_lowercase, trim, trimmed, decimal, char_from};

verus! {

/// Where an account's home directory lives.
#[derive(Clone, Copy, Debug, PartialEq, Eq, Structural)]
pub enum CodexAccountSource {
    /// The home that the command line tool and the desktop application use.
    Ambient,
    /// A home of the application's own.
    ManagedByApp,
}

impl CodexAccountSource {
    /// The name shown to the user.
    pub fn display_name(self) -> (r: &'static str)
        ensures
            r@ == (match self {
                CodexAccountSource::Ambient => "System"@,
                CodexAccountSource::ManagedByApp => "Managed"@,
            }),
    {
        match self {
            CodexAccountSource::Ambient => "System",
            CodexAccountSource::ManagedByApp => "Managed",
        }
    }

    /// Whether the application owns, and may delete, the account's files.
    pub open spec fn owned(self) -> bool {
        self == CodexAccountSource::ManagedByApp
    }

    /// Whether the application owns, and may delete, the account's files.
    pub fn owns_files(self) -> (r: bool)
        ensures
            r == self.owned(),
    {
        match self {
            CodexAccountSource::Ambient => false,
            CodexAccountSource::ManagedByApp => true,
        }
    }

    /// The source with the given stored name.
    pub fn from_raw(value: &str) -> (r: Option<Self>)
        ensures
            r == (if value@ == "ambient"@ {
                Some(CodexAccountSource::Ambient)
            } else if value@ == "managedByApp"@ || value@ == "importedCodexBar"@ {
                Some(CodexAccountSource::ManagedByApp)
            } else {
                None
            }),
    {
        if same(value, "ambient") {
            Some(CodexAccountSource::Ambient)
        } else if same(value, "managedByApp") || same(value, "importedCodexBar") {
            Some(CodexAccountSource::ManagedByApp)
        } else {
            None
        }
    }
}

/// A home directory, with what identity rules need of its path.
#[derive(Debug)]
pub struct HomePath {
    /// The path as it was given.
    pub raw: String,
    /// The absolute path.
    pub absolute: String,
    /// The absolute path in small letters.
    pub standardized: String,
    /// The last part of the path.
    pub file_name: Option<String>,
}

#[verifier::ext_equal]
pub struct HomeView {
    pub raw: Seq<char>,
    pub absolute: Seq<char>,
    pub standardized: Seq<char>,
    pub file_name: Option<Seq<char>>,
}

impl View for HomePath {
    type V = HomeView;

    open spec fn view(&self) -> HomeView {
        HomeView {
            raw: self.raw@,
            absolute: self.absolute@,
            standardized: self.standardized@,
            file_name: seen(self.file_name),
        }
    }
}

impl HomePath {
    /// The home at `raw`, given its absolute form and its last part.
    pub fn from_parts(raw: String, absolute: &str, file_name: Option<String>) -> (r: HomePath)
        ensures
            r@ == (HomeView {
                raw: raw@,
                absolute: absolute@,
                standardized: lowercase(absolute@),
                file_name: seen(file_name),
            }),
    {
        HomePath {
            raw,
            absolute: absolute.to_owned(),
            standardized: to_lowercase(absolute),
            file_name,
        }
    }

    /// The home at `raw`. The current directory decides on the absolute form.
    pub fn resolve(raw: &str) -> (r: HomePath)
        ensures
            r.raw@ == raw@,
            r.standardized@ == lowercase(r.absolute@),
            raw@.len() == 0 <==> r.absolute@.len() == 0,
            r.file_name matches Some(name) ==> name@.len() > 0 && has_part(raw@, name@),
            single_part(raw@) ==> seen(r.file_name) == Some(raw@),
    {
        let absolute = absolute_path(raw);
        HomePath::from_parts(raw.to_owned(), absolute.as_str(), path_file_name(raw))
    }
}

impl Clone for HomePath {
    fn clone(&self) -> (r: HomePath)
        ensures
            r@ == self@,
    {
        HomePath {
            raw: self.raw.clone(),
            absolute: self.absolute.clone(),
            standardized: self.standardized.clone(),
            file_name: copy_text(&self.file_name),
        }
    }
}

/// The identifier in a field: trimmed, in small letters, and not empty.
pub open spec fn identifier(value: Option<Seq<char>>) -> Option<Seq<char>> {
    match value {
        Some(v) => if lowercase(trimmed(v)).len() > 0 {
            Some(lowercase(trimmed(v)))
        } else {
            None
        },
        None => None,
    }
}

/// The identifier in a field.
pub fn normalize_identifier(value: Option<&str>) -> (r: Option<String>)
    ensures
        seen(r) == identifier(glimpsed(value)),
{
    match value {
        Some(v) => {
            let n = to_lowercase(trim(v));
            if n.as_str().is_empty() {
                None
            } else {
                Some(n)
            }
        },
        None => None,
    }
}

/// A stored account.
#[derive(Debug)]
pub struct CodexAccount {
    pub id: u128,
    pub nickname: Option<String>,
    pub email_hint: Option<String>,
    pub auth_subject: Option<String>,
    pub provider_account_id: Option<String>,
    pub codex_home_path: HomePath,
    pub source: CodexAccountSource,
    pub created_at: Moment,
    pub updated_at: Moment,
    pub last_authenticated_at: Option<Moment>,
}

#[verifier::ext_equal]
pub struct AccountView {
    pub id: u128,
    pub nickname: Option<Seq<char>>,
    pub email_hint: Option<Seq<char>>,
    pub auth_subject: Option<Seq<char>>,
    pub provider_account_id: Option<Seq<char>>,
    pub home: HomeView,
    pub source: CodexAccountSource,
    pub created_at: Moment,
    pub updated_at: Moment,
    pub last_authenticated_at: Option<Moment>,
}

impl View for CodexAccount {
    type V = AccountView;

    open spec fn view(&self) -> AccountView {
        AccountView {
            id: self.id,
            nickname: seen(self.nickname),
            email_hint: seen(self.email_hint),
            auth_subject: seen(self.auth_subject),
            provider_account_id: seen(self.provider_account_id),
            home: self.codex_home_path@,
            source: self.source,
            created_at: self.created_at,
            updated_at: self.updated_at,
            last_authenticated_at: self.last_authenticated_at,
        }
    }
}

/// A text that is absent or blank.
pub open spec fn is_blank(value: Option<Seq<char>>) -> bool {
    match value {
        Some(v) => trimmed(v).len() == 0,
        None => true,
    }
}

impl AccountView {
    /// The name shown to the user: the nickname, else the email address, else the home.
    pub open spec fn shown_name(self) -> Seq<char> {
        if !is_blank(self.nickname) {
            trimmed(self.nickname->Some_0)
        } else {
            match self.email_hint {
                Some(email) => if email.len() > 0 {
                    email
                } else {
                    self.home_name()
                },
                None => self.home_name(),
            }
        }
    }

    pub open spec fn home_name(self) -> Seq<char> {
        match self.home.file_name {
            Some(name) => name,
            None => self.home.raw,
        }
    }

    /// Whether two accounts belong to one owner. The provider's account id decides where
    /// either has one, then the subject where both have one, then the email address where
    /// both have one. The home decides only where neither account names its owner.
    pub open spec fn same_owner(self, other: AccountView) -> bool {
        let (pa, pb) = (identifier(self.provider_account_id), identifier(other.provider_account_id));
        let (sa, sb) = (identifier(self.auth_subject), identifier(other.auth_subject));
        let (ea, eb) = (identifier(self.email_hint), identifier(other.email_hint));
        if pa is Some || pb is Some {
            pa == pb
        } else if sa is Some && sb is Some {
            sa == sb
        } else if ea is Some && eb is Some {
            ea == eb
        } else {
            sa is None && sb is None && ea is None && eb is None && self.home.standardized
                == other.home.standardized
        }
    }

    /// When the account was last known to be good.
    pub open spec fn recency(self) -> Moment {
        match self.last_authenticated_at {
            Some(t) => t,
            None => self.updated_at,
        }
    }

    /// Whether what `other` says goes before what `self` says.
    pub open spec fn yields_to(self, other: AccountView) -> bool {
        ||| other.source.owned() && !self.source.owned()
        ||| (other.source == self.source && !other.recency().precedes(self.recency()))
    }

    /// What a field holds after a merge.
    pub open spec fn picked(
        mine: Option<Seq<char>>,
        theirs: Option<Seq<char>>,
        prefer_theirs: bool,
    ) -> Option<Seq<char>> {
        if mine is None || (prefer_theirs && !is_blank(theirs)) {
            theirs
        } else {
            mine
        }
    }

    /// This account with a fresher discovery of it merged in.
    pub open spec fn merged(self, other: AccountView) -> AccountView {
        let prefer = self.yields_to(other);
        AccountView {
            id: self.id,
            nickname: if is_blank(self.nickname) {
                other.nickname
            } else {
                self.nickname
            },
            email_hint: AccountView::picked(self.email_hint, other.email_hint, prefer),
            auth_subject: AccountView::picked(self.auth_subject, other.auth_subject, prefer),
            provider_account_id: AccountView::picked(
                self.provider_account_id,
                other.provider_account_id,
                prefer,
            ),
            home: if prefer {
                other.home
            } else {
                self.home
            },
            source: if prefer {
                other.source
            } else {
                self.source
            },
            created_at: self.created_at,
            updated_at: self.updated_at.latest(other.updated_at),
            last_authenticated_at: match (self.last_authenticated_at, other.last_authenticated_at) {
                (Some(a), Some(b)) => Some(a.latest(b)),
                (Some(a), None) => Some(a),
                (None, b) => b,
            },
        }
    }
}

/// Whether an optional text is absent or blank.
fn blank(value: &Option<String>) -> (r: bool)
    ensures
        r == is_blank(seen(*value)),
{
    match value {
        Some(v) => trim(v.as_str()).is_empty(),
        None => true,
    }
}

impl Clone for CodexAccount {
    fn clone(&self) -> (r: CodexAccount)
        ensures
            r@ == self@,
    {
        CodexAccount {
            id: self.id,
            nickname: copy_text(&self.nickname),
            email_hint: copy_text(&self.email_hint),
            auth_subject: copy_text(&self.auth_subject),
            provider_account_id: copy_text(&self.provider_account_id),
            codex_home_path: self.codex_home_path.clone(),
            source: self.source,
            created_at: self.created_at,
            updated_at: self.updated_at,
            last_authenticated_at: self.last_authenticated_at,
        }
    }
}

impl CodexAccount {
    #[allow(clippy::too_many_arguments)]
    pub fn new(
        id: u128,
        nickname: Option<String>,
        email_hint: Option<String>,
        auth_subject: Option<String>,
        provider_account_id: Option<String>,
        codex_home_path: HomePath,
        source: CodexAccountSource,
        created_at: Moment,
        updated_at: Moment,
        last_authenticated_at: Option<Moment>,
    ) -> (r: Self)
        ensures
            r@ == (AccountView {
                id,
                nickname: seen(nickname),
                email_hint: seen(email_hint),
                auth_subject: seen(auth_subject),
                provider_account_id: seen(provider_account_id),
                home: codex_home_path@,
                source,
                created_at,
                updated_at,
                last_authenticated_at,
            }),
    {
        CodexAccount {
            id,
            nickname,
            email_hint,
            auth_subject,
            provider_account_id,
            codex_home_path,
            source,
            created_at,
            updated_at,
            last_authenticated_at,
        }
    }

    /// The name shown to the user.
    pub fn display_name(&self) -> (r: String)
        ensures
            r@ == self@.shown_name(),
    {
        if let Some(nickname) = &self.nickname {
            let t = trim(nickname.as_str());
            if !t.is_empty() {
                return t.to_owned();
            }
        }
        if let Some(email) = &self.email_hint {
            if !email.as_str().is_empty() {
                return email.clone();
            }
        }
        match &self.codex_home_path.file_name {
            Some(name) => name.clone(),
            None => self.codex_home_path.raw.clone(),
        }
    }

    pub fn normalized_email_hint(&self) -> (r: Option<String>)
        ensures
            seen(r) == identifier(self@.email_hint),
    {
        normalize_identifier(borrow_text(&self.email_hint))
    }

    pub fn normalized_auth_subject(&self) -> (r: Option<String>)
        ensures
            seen(r) == identifier(self@.auth_subject),
    {
        normalize_identifier(borrow_text(&self.auth_subject))
    }

    pub fn normalized_provider_account_id(&self) -> (r: Option<String>)
        ensures
            seen(r) == identifier(self@.provider_account_id),
    {
        normalize_identifier(borrow_text(&self.provider_account_id))
    }

    /// The absolute home path in small letters.
    pub fn standardized_home_path(&self) -> (r: String)
        ensures
            r@ == self@.home.standardized,
    {
        self.codex_home_path.standardized.clone()
    }

    /// 2 for an account whose files the application owns, 1 for another.
    pub fn source_priority(&self) -> (r: u8)
        ensures
            r == (if self@.source.owned() { 2u8 } else { 1u8 }),
    {
        if self.source.owns_files() {
            2
        } else {
            1
        }
    }

    /// When the account was last known to be good.
    pub fn recency_date(&self) -> (r: Moment)
        ensures
            r == self@.recency(),
    {
        match self.last_authenticated_at {
            Some(t) => t,
            None => self.updated_at,
        }
    }

    /// Whether two accounts belong to one owner.
    pub fn matches(&self, other: &CodexAccount) -> (r: bool)
        ensures
            r == self@.same_owner(other@),
    {
        let pa = self.normalized_provider_account_id();
        let pb = other.normalized_provider_account_id();
        if pa.is_some() || pb.is_some() {
            return same_option(&pa, &pb);
        }
        let sa = self.normalized_auth_subject();
        let sb = other.normalized_auth_subject();
        if sa.is_some() && sb.is_some() {
            return same_option(&sa, &sb);
        }
        let ea = self.normalized_email_hint();
        let eb = other.normalized_email_hint();
        if ea.is_some() && eb.is_some() {
            return same_option(&ea, &eb);
        }
        sa.is_none() && sb.is_none() && ea.is_none() && eb.is_none() && same(
            self.codex_home_path.standardized.as_str(),
            other.codex_home_path.standardized.as_str(),
        )
    }

    /// Merges a fresher discovery into this account.
    pub fn merge_from(&mut self, other: &CodexAccount)
        ensures
            final(self)@ == old(self)@.merged(other@),
    {
        let mine: u8 = self.source_priority();
        let theirs: u8 = other.source_priority();
        let prefer = theirs > mine || (theirs == mine && !other.recency_date().before(
            self.recency_date(),
        ));
        if blank(&self.nickname) {
            self.nickname = copy_text(&other.nickname);
        }
        if self.email_hint.is_none() || (prefer && !blank(&other.email_hint)) {
            self.email_hint = copy_text(&other.email_hint);
        }
        if self.auth_subject.is_none() || (prefer && !blank(&other.auth_subject)) {
            self.auth_subject = copy_text(&other.auth_subject);
        }
        if self.provider_account_id.is_none() || (prefer && !blank(&other.provider_account_id)) {
            self.provider_account_id = copy_text(&other.provider_account_id);
        }
        if prefer {
            self.source = other.source;
            self.codex_home_path = other.codex_home_path.clone();
        }
        self.updated_at = self.updated_at.later(other.updated_at);
        self.last_authenticated_at =
        match (self.last_authenticated_at, other.last_authenticated_at) {
            (Some(a), Some(b)) => Some(a.later(b)),
            (Some(a), None) => Some(a),
            (None, b) => b,
        };
    }
}

/// Two accounts belong to one owner whichever is asked about the other, and every account
/// belongs to its own owner.
pub proof fn same_owner_is_symmetric_and_reflexive(a: AccountView, b: AccountView)
    ensures
        a.same_owner(b) == b.same_owner(a),
        a.same_owner(a),
{
}

/// Where both accounts carry a provider account id, neither the home nor any other field counts.
pub proof fn provider_ids_decide(a: AccountView, b: AccountView)
    requires
        identifier(a.provider_account_id) is Some,
        identifier(b.provider_account_id) is Some,
    ensures
        a.same_owner(b) <==> identifier(a.provider_account_id) == identifier(b.provider_account_id),
{
}

/// A merge keeps the account's id, its creation time and its nickname, never goes back in
/// time, and never leaves a field empty that was filled.
pub proof fn merging_loses_nothing(a: AccountView, b: AccountView)
    ensures
        a.merged(b).id == a.id,
        a.merged(b).created_at == a.created_at,
        !is_blank(a.nickname) ==> a.merged(b).nickname == a.nickname,
        !a.merged(b).updated_at.precedes(a.updated_at),
        !a.merged(b).updated_at.precedes(b.updated_at),
        a.email_hint is Some ==> a.merged(b).email_hint is Some,
        a.auth_subject is Some ==> a.merged(b).auth_subject is Some,
        a.provider_account_id is Some ==> a.merged(b).provider_account_id is Some,
        a.last_authenticated_at is Some || b.last_authenticated_at is Some
            ==> a.merged(b).last_authenticated_at is Some,
{
}

/// Merging an account into itself changes nothing.
pub proof fn merging_with_itself_changes_nothing(a: AccountView)
    ensures
        a.merged(a) == a,
{
    assert(a.merged(a) =~= a);
}

/// A managed account keeps its home and its source against an ambient one, and an ambient
/// account takes them from a managed one.
pub proof fn managed_goes_before_ambient(a: AccountView, b: AccountView)
    requires
        a.source == CodexAccountSource::ManagedByApp,
        b.source == CodexAccountSource::Ambient,
    ensures
        a.merged(b).source == CodexAccountSource::ManagedByApp,
        a.merged(b).home == a.home,
        b.merged(a).source == CodexAccountSource::ManagedByApp,
        b.merged(a).home == a.home,
{
}

/// The identity of an account that was removed, kept so that it is not added again.
#[derive(Debug)]
pub struct RemovedAccountIdentity {
    pub id: u128,
    pub email_hint: Option<String>,
    pub auth_subject: Option<String>,
    pub provider_account_id: Option<String>,
    pub codex_home_path: HomePath,
    pub source: CodexAccountSource,
    pub removed_at: Moment,
}

#[verifier::ext_equal]
pub struct RemovedView {
    pub id: u128,
    pub email_hint: Option<Seq<char>>,
    pub auth_subject: Option<Seq<char>>,
    pub provider_account_id: Option<Seq<char>>,
    pub home: HomeView,
    pub source: CodexAccountSource,
    pub removed_at: Moment,
}

impl View for RemovedAccountIdentity {
    type V = RemovedView;

    open spec fn view(&self) -> RemovedView {
        RemovedView {
            id: self.id,
            email_hint: seen(self.email_hint),
            auth_subject: seen(self.auth_subject),
            provider_account_id: seen(self.provider_account_id),
            home: self.codex_home_path@,
            source: self.source,
            removed_at: self.removed_at,
        }
    }
}

/// Two identifiers that are both there and equal.
pub open spec fn agree(a: Option<Seq<char>>, b: Option<Seq<char>>) -> bool {
    identifier(a) is Some && identifier(a) == identifier(b)
}

impl RemovedView {
    /// What is kept of an account that is removed.
    pub open spec fn of(account: AccountView, id: u128, removed_at: Moment) -> RemovedView {
        RemovedView {
            id,
            email_hint: account.email_hint,
            auth_subject: account.auth_subject,
            provider_account_id: account.provider_account_id,
            home: account.home,
            source: account.source,
            removed_at,
        }
    }

    /// Whether `account` is the one that was removed. An equal home decides at once; after
    /// that an equal provider account id does. Subject and email address count only where
    /// neither side has a provider account id.
    pub open spec fn recognizes(self, account: AccountView) -> bool {
        ||| self.home.standardized == account.home.standardized
        ||| agree(self.provider_account_id, account.provider_account_id)
        ||| {
            &&& is_blank(self.provider_account_id)
            &&& account.provider_account_id is None
            &&& agree(self.auth_subject, account.auth_subject) || agree(
                self.email_hint,
                account.email_hint,
            )
        }
    }
}

/// Whether two optional texts hold one identifier.
fn identifiers_agree(a: &Option<String>, b: &Option<String>) -> (r: bool)
    ensures
        r == agree(seen(*a), seen(*b)),
{
    let x = normalize_identifier(borrow_text(a));
    let y = normalize_identifier(borrow_text(b));
    x.is_some() && same_option(&x, &y)
}

impl RemovedAccountIdentity {
    /// Keeps the identity of `account`, given a number and a time for the record.
    pub fn from_account_at(account: &CodexAccount, id: u128, removed_at: Moment) -> (r: Self)
        ensures
            r@ == RemovedView::of(account@, id, removed_at),
    {
        RemovedAccountIdentity {
            id,
            email_hint: copy_text(&account.email_hint),
            auth_subject: copy_text(&account.auth_subject),
            provider_account_id: copy_text(&account.provider_account_id),
            codex_home_path: account.codex_home_path.clone(),
            source: account.source,
            removed_at,
        }
    }

    /// Keeps the identity of `account` under a fresh number and the present time.
    pub fn from_account(account: &CodexAccount) -> (r: Self)
        ensures
            r@ == RemovedView::of(account@, r.id, r.removed_at),
            is_reading(r.removed_at),
    {
        RemovedAccountIdentity::from_account_at(account, fresh_uuid(), clock())
    }

    /// Whether `account` is the one that was removed.
    pub fn matches(&self, account: &CodexAccount) -> (r: bool)
        ensures
            r == self@.recognizes(account@),
    {
        if same(
            self.codex_home_path.standardized.as_str(),
            account.codex_home_path.standardized.as_str(),
        ) {
            return true;
        }
        if identifiers_agree(&self.provider_account_id, &account.provider_account_id) {
            return true;
        }
        if !blank(&self.provider_account_id) || account.provider_account_id.is_some() {
            return false;
        }
        identifiers_agree(&self.auth_subject, &account.auth_subject) || identifiers_agree(
            &self.email_hint,
            &account.email_hint,
        )
    }
}

/// A removed account is recognized when it turns up again.
pub proof fn removed_account_is_recognized(account: AccountView, id: u128, removed_at: Moment)
    ensures
        RemovedView::of(account, id, removed_at).recognizes(account),
{
}

/// The kind of a quota window, by its length.
#[derive(Clone, Copy, Debug, PartialEq, Eq, Structural)]
pub enum WindowRole {
    Session,
    Weekly,
    Monthly,
    Unknown,
}

/// A quota window.
#[derive(Clone, Copy, Debug, PartialEq, Eq, Structural)]
pub struct UsageWindowSnapshot {
    pub used_percent: Quantity,
    pub reset_at: Option<Moment>,
    pub limit_window_seconds: i64,
}

/// A hundred percent.
pub const WHOLE: i128 = 100 * ONE;

/// The role of a window of the given length: five hours, seven days or thirty days.
pub open spec fn role_of(seconds: i64) -> WindowRole {
    if seconds == 18_000 {
        WindowRole::Session
    } else if seconds == 604_800 {
        WindowRole::Weekly
    } else if seconds == 2_592_000 {
        WindowRole::Monthly
    } else {
        WindowRole::Unknown
    }
}

impl UsageWindowSnapshot {
    pub fn new(
        used_percent: Quantity,
        reset_at: Option<Moment>,
        limit_window_seconds: i64,
    ) -> (r: Self)
        ensures
            r == (UsageWindowSnapshot { used_percent, reset_at, limit_window_seconds }),
    {
        UsageWindowSnapshot { used_percent, reset_at, limit_window_seconds }
    }

    /// What is left of the window, in units of 2^-64 percent: never less than nothing.
    pub open spec fn remaining(self) -> int {
        if self.used_percent.scaled >= WHOLE {
            0
        } else {
            rounded(WHOLE - self.used_percent.scaled)
        }
    }

    /// What is left of the window.
    pub fn remaining_percent(&self) -> (r: Quantity)
        requires
            self.used_percent.wf(),
        ensures
            r.scaled == self.remaining(),
    {
        if self.used_percent.scaled >= WHOLE {
            Quantity { scaled: 0 }
        } else {
            Quantity { scaled: round_double(WHOLE - self.used_percent.scaled) }
        }
    }

    /// The role of the window.
    pub fn role(&self) -> (r: WindowRole)
        ensures
            r == role_of(self.limit_window_seconds),
    {
        if self.limit_window_seconds == 18_000 {
            WindowRole::Session
        } else if self.limit_window_seconds == 604_800 {
            WindowRole::Weekly
        } else if self.limit_window_seconds == 2_592_000 {
            WindowRole::Monthly
        } else {
            WindowRole::Unknown
        }
    }
}

/// Nothing is left of a window exactly when all of it is used.
pub proof fn remaining_is_bounded(w: UsageWindowSnapshot)
    ensures
        w.remaining() >= 0,
        w.remaining() == 0 <==> w.used_percent.scaled >= WHOLE,
        w.used_percent.scaled >= 0 ==> w.remaining() <= WHOLE,
{
    if w.used_percent.scaled < WHOLE {
        rounding_stays_within_a_hundred((WHOLE - w.used_percent.scaled) as nat);
    }
}

/// A balance of credits.
#[derive(Clone, Copy, Debug, PartialEq, Eq, Structural)]
pub struct CreditsBalanceSnapshot {
    pub has_credits: bool,
    pub unlimited: bool,
    pub balance: Option<Quantity>,
}

/// `scaled` in hundredths, rounded to the nearest, ties to even.
pub open spec fn hundredths(scaled: nat) -> nat {
    let whole = (scaled * 100) as int / ONE as int;
    let rest = (scaled * 100) as int % ONE as int;
    if rest * 2 > ONE || (rest * 2 == ONE && whole % 2 == 1) {
        (whole + 1) as nat
    } else {
        whole as nat
    }
}

/// `s` without the `c` at its end.
pub open spec fn without_trailing(s: Seq<char>, c: char) -> Seq<char>
    decreases s.len(),
{
    if s.len() > 0 && s.last() == c {
        without_trailing(s.drop_last(), c)
    } else {
        s
    }
}

/// A balance with two decimals.
pub open spec fn two_decimals(scaled: int) -> Seq<char> {
    let h = hundredths(if scaled < 0 { (-scaled) as nat } else { scaled as nat });
    (if scaled < 0 {
        seq!['-']
    } else {
        Seq::empty()
    }) + digits(h / 100) + seq!['.'] + digits(h / 10 % 10) + digits(h % 10)
}

/// Removes every `c` at the end of `s`.
pub fn trim_trailing<'a>(s: &'a str, c: char) -> (r: &'a str)
    ensures
        r@ == without_trailing(s@, c),
{
    let v = chars_of(s);
    let mut j: usize = v.len();
    assert(s@.take(j as int) =~= s@);
    while j > 0 && v[j - 1] == c
        invariant
            v@ == s@,
            j <= v@.len(),
            without_trailing(s@, c) == without_trailing(s@.take(j as int), c),
        decreases j,
    {
        assert(s@.take(j as int).drop_last() =~= s@.take(j - 1));
        j -= 1;
    }
    assert(s@.subrange(0, j as int) =~= s@.take(j as int));
    s.substring_char(0, j)
}

/// A magnitude in hundredths.
fn hundredths_of(m: i128) -> (r: u128)
    requires
        0 <= m <= LIMIT,
    ensures
        r == hundredths(m as nat),
        r <= 0x1_0000_0000_0000_0000 * 100,
{
    let units: i128 = m / ONE;
    let part: i128 = (m % ONE) * 100;
    let whole: i128 = units * 100 + part / ONE;
    let rest: i128 = part % ONE;
    assert(m * 100 == (units * 100) * ONE + part);
    assert((m * 100) / ONE as int == whole && (m * 100) % ONE as int == rest);
    let h: i128 = if rest * 2 > ONE || (rest * 2 == ONE && whole % 2 == 1) { whole + 1 } else { whole };
    h as u128
}

/// Writes a balance with two decimals.
fn write_two_decimals(q: Quantity) -> (r: String)
    requires
        q.wf(),
    ensures
        r@ == two_decimals(q.scaled as int),
{
    let negative = q.scaled < 0;
    let m: i128 = if negative { -q.scaled } else { q.scaled };
    let h: u128 = hundredths_of(m);
    let units: u64 = (h / 100) as u64;
    let tenths: u64 = (h / 10 % 10) as u64;
    let last: u64 = (h % 10) as u64;
    let mut out = String::new();
    if negative {
        out.push('-');
    }
    out.append(decimal(units).as_str());
    out.push('.');
    out.append(decimal(tenths).as_str());
    out.append(decimal(last).as_str());
    assert(out@ =~= two_decimals(q.scaled as int));
    out
}

impl CreditsBalanceSnapshot {
    /// The balance as shown to the user.
    pub fn display_value(&self) -> (r: String)
        requires
            self.balance matches Some(q) ==> q.wf(),
        ensures
            r@ == (if self.unlimited {
                "Unlimited"@
            } else {
                match self.balance {
                    Some(q) => without_trailing(
                        without_trailing(two_decimals(q.scaled as int), '0'),
                        '.',
                    ),
                    None => if self.has_credits {
                        "Available"@
                    } else {
                        "None"@
                    },
                }
            }),
    {
        if self.unlimited {
            return "Unlimited".to_owned();
        }
        if let Some(q) = self.balance {
            let text = write_two_decimals(q);
            return trim_trailing(trim_trailing(text.as_str(), '0'), '.').to_owned();
        }
        if self.has_credits {
            return "Available".to_owned();
        }
        "None".to_owned()
    }
}

/// What was fetched for one account.
#[derive(Debug)]
pub struct AccountUsageSnapshot {
    pub email: Option<String>,
    pub provider_account_id: Option<String>,
    pub plan: Option<String>,
    pub allowed: Option<bool>,
    pub limit_reached: Option<bool>,
    pub primary_window: Option<UsageWindowSnapshot>,
    pub secondary_window: Option<UsageWindowSnapshot>,
    pub credits: Option<CreditsBalanceSnapshot>,
    pub updated_at: Moment,
}

#[verifier::ext_equal]
pub struct SnapshotView {
    pub email: Option<Seq<char>>,
    pub provider_account_id: Option<Seq<char>>,
    pub plan: Option<Seq<char>>,
    pub allowed: Option<bool>,
    pub limit_reached: Option<bool>,
    pub primary_window: Option<UsageWindowSnapshot>,
    pub secondary_window: Option<UsageWindowSnapshot>,
    pub credits: Option<CreditsBalanceSnapshot>,
    pub updated_at: Moment,
}

impl View for AccountUsageSnapshot {
    type V = SnapshotView;

    open spec fn view(&self) -> SnapshotView {
        SnapshotView {
            email: seen(self.email),
            provider_account_id: seen(self.provider_account_id),
            plan: seen(self.plan),
            allowed: self.allowed,
            limit_reached: self.limit_reached,
            primary_window: self.primary_window,
            secondary_window: self.secondary_window,
            credits: self.credits,
            updated_at: self.updated_at,
        }
    }
}

impl Clone for AccountUsageSnapshot {
    fn clone(&self) -> (r: AccountUsageSnapshot)
        ensures
            r@ == self@,
    {
        AccountUsageSnapshot {
            email: copy_text(&self.email),
            provider_account_id: copy_text(&self.provider_account_id),
            plan: copy_text(&self.plan),
            allowed: self.allowed,
            limit_reached: self.limit_reached,
            primary_window: self.primary_window,
            secondary_window: self.secondary_window,
            credits: self.credits,
            updated_at: self.updated_at,
        }
    }
}

impl SnapshotView {
    /// Every quantity is within its limits.
    pub open spec fn wf(self) -> bool {
        &&& self.primary_window matches Some(w) ==> w.used_percent.wf()
        &&& self.secondary_window matches Some(w) ==> w.used_percent.wf()
        &&& self.credits matches Some(c) ==> c.balance matches Some(q) ==> q.wf()
    }

    pub open spec fn blocked(self) -> bool {
        self.limit_reached == Some(true) || self.allowed == Some(false)
    }

    /// More than a thousandth of a percent is left of some window.
    pub open spec fn usable(self) -> bool {
        &&& !self.blocked()
        &&& {
            ||| self.primary_window matches Some(w) && w.remaining() > THOUSANDTH
            ||| self.secondary_window matches Some(w) && w.remaining() > THOUSANDTH
        }
    }

    /// The least that is left of a window; `LIMIT` where there is no window.
    pub open spec fn lowest(self) -> int {
        if self.blocked() {
            0
        } else {
            match (self.primary_window, self.secondary_window) {
                (Some(p), Some(s)) => if p.remaining() < s.remaining() {
                    p.remaining()
                } else {
                    s.remaining()
                },
                (Some(p), None) => p.remaining(),
                (None, Some(s)) => s.remaining(),
                (None, None) => LIMIT as int,
            }
        }
    }

    /// The earliest reset of a window.
    pub open spec fn next_reset(self) -> Option<Moment> {
        let p = match self.primary_window {
            Some(w) => w.reset_at,
            None => None,
        };
        let s = match self.secondary_window {
            Some(w) => w.reset_at,
            None => None,
        };
        match (p, s) {
            (Some(a), Some(b)) => Some(
                if b.precedes(a) {
                    b
                } else {
                    a
                },
            ),
            (Some(a), None) => Some(a),
            (None, b) => b,
        }
    }
}

impl AccountUsageSnapshot {
    /// Whether the provider refuses requests of the account.
    pub fn is_quota_blocked(&self) -> (r: bool)
        ensures
            r == self@.blocked(),
    {
        self.limit_reached == Some(true) || self.allowed == Some(false)
    }

    pub fn has_quota_windows(&self) -> (r: bool)
        ensures
            r == (self@.primary_window is Some || self@.secondary_window is Some),
    {
        self.primary_window.is_some() || self.secondary_window.is_some()
    }

    /// Whether the account can be used at once.
    pub fn has_usable_quota_now(&self) -> (r: bool)
        requires
            self@.wf(),
        ensures
            r == self@.usable(),
    {
        if self.is_quota_blocked() {
            return false;
        }
        if let Some(w) = &self.primary_window {
            if w.remaining_percent().scaled > THOUSANDTH {
                return true;
            }
        }
        if let Some(w) = &self.secondary_window {
            if w.remaining_percent().scaled > THOUSANDTH {
                return true;
            }
        }
        false
    }

    /// The least that is left of a window.
    pub fn lowest_remaining_percent(&self) -> (r: Quantity)
        requires
            self@.wf(),
        ensures
            r.scaled == self@.lowest(),
    {
        if self.is_quota_blocked() {
            return Quantity { scaled: 0 };
        }
        match (&self.primary_window, &self.secondary_window) {
            (Some(p), Some(s)) => {
                let a = p.remaining_percent();
                let b = s.remaining_percent();
                if a.scaled < b.scaled {
                    a
                } else {
                    b
                }
            },
            (Some(p), None) => p.remaining_percent(),
            (None, Some(s)) => s.remaining_percent(),
            (None, None) => Quantity { scaled: LIMIT },
        }
    }

    /// The earliest reset of a window.
    pub fn next_reset_at(&self) -> (r: Option<Moment>)
        ensures
            r == self@.next_reset(),
    {
        let p: Option<Moment> = match &self.primary_window {
            Some(w) => w.reset_at,
            None => None,
        };
        let s: Option<Moment> = match &self.secondary_window {
            Some(w) => w.reset_at,
            None => None,
        };
        match (p, s) {
            (Some(a), Some(b)) => Some(if b.before(a) { b } else { a }),
            (Some(a), None) => Some(a),
            (None, b) => b,
        }
    }
}

/// The place of a snapshot in a list by usefulness: usable accounts first, then those that
/// will be reset, then the rest.
pub fn account_sort_priority(snapshot: &AccountUsageSnapshot) -> (r: u8)
    requires
        snapshot@.wf(),
    ensures
        r == (if snapshot@.usable() {
            0u8
        } else if snapshot@.next_reset() is Some {
            1u8
        } else {
            2u8
        }),
{
    if snapshot.has_usable_quota_now() {
        0
    } else if snapshot.next_reset_at().is_some() {
        1
    } else {
        2
    }
}

/// A blocked account is never usable, whatever its windows say, and has nothing left.
pub proof fn blocked_account_is_not_usable(s: SnapshotView)
    requires
        s.blocked(),
    ensures
        !s.usable(),
        s.lowest() == 0,
{
}

/// Whether a path ends with the separator of its parts.
pub fn _path_is_trailing(path: &str, separator: char) -> (r: bool)
    ensures
        r == (path@.len() > 0 && path@.last() == separator),
{
    let n = path.unicode_len();
    n > 0 && path.get_char(n - 1) == separator
}

/// The position of the last `+` or `-` before `end`.
pub open spec fn last_sign(s: Seq<char>, end: int) -> Option<int>
    decreases end,
{
    if end <= 0 {
        None
    } else if s[end - 1] == '+' || s[end - 1] == '-' {
        Some(end - 1)
    } else {
        last_sign(s, end - 1)
    }
}

pub open spec fn is_digit(c: char) -> bool {
    '0' <= c <= '9'
}

/// Whether a date and a time are set apart by a character.
pub open spec fn parts_date_and_time(c: char) -> bool {
    c == 'T' || c == 't' || c == ' '
}

/// The first position, from `i` on, that sets a date and a time apart.
pub open spec fn time_from(s: Seq<char>, i: int) -> Option<int>
    decreases s.len() - i,
{
    if i < 0 || i >= s.len() {
        None
    } else if parts_date_and_time(s[i]) {
        Some(i)
    } else {
        time_from(s, i + 1)
    }
}

/// Whether a time carries an offset such as `+02:00`: behind what sets it apart from the date
/// stands a sign, and behind the last one two digits and, somewhere, a colon.
pub open spec fn carries_offset(s: Seq<char>) -> bool {
    match time_from(s, 0) {
        None => false,
        Some(t) => {
            let rest = s.skip(t + 1);
            match last_sign(rest, rest.len() as int) {
                None => false,
                Some(k) => {
                    let tail = rest.skip(k + 1);
                    tail.len() >= 2 && is_digit(tail[0]) && is_digit(tail[1]) && tail.contains(':')
                },
            }
        },
    }
}

/// Whether a time carries an offset such as `+02:00`.
pub fn contains_offset(text: &str) -> (r: bool)
    ensures
        r == carries_offset(text@),
{
    let v = chars_of(text);
    let n = v.len();
    let mut t: usize = 0;
    while t < n && !(v[t] == 'T' || v[t] == 't' || v[t] == ' ')
        invariant
            v@ == text@,
            n == v@.len(),
            t <= n,
            time_from(text@, 0) == time_from(text@, t as int),
        decreases n - t,
    {
        t += 1;
    }
    if t == n {
        return false;
    }
    let ghost rest = text@.skip(t + 1);
    let mut k: usize = n;
    while k > t + 1 && v[k - 1] != '+' && v[k - 1] != '-'
        invariant
            v@ == text@,
            n == v@.len(),
            t + 1 <= k <= n,
            rest == text@.skip(t + 1),
            last_sign(rest, rest.len() as int) == last_sign(rest, k - t - 1),
        decreases k,
    {
        k -= 1;
    }
    if k == t + 1 {
        return false;
    }
    let ghost tail = rest.skip(k - t - 1);
    assert(tail =~= text@.skip(k as int));
    if n - k < 2 {
        return false;
    }
    let a: char = v[k];
    let b: char = v[k + 1];
    let digits = '0' <= a && a <= '9' && '0' <= b && b <= '9';
    let colon = find_char(v.as_slice(), ':', k);
    proof {
        match colon {
            Some(j) => {
                assert(tail[j - k] == ':');
            },
            None => {
                lemma_absent_char(text@, ':', k as int);
                if tail.contains(':') {
                    let j = tail.index_of(':');
                    assert(text@[k + j] == ':');
                }
            },
        }
    }
    digits && colon.is_some()
}

proof fn lemma_absent_char(s: Seq<char>, c: char, i: int)
    requires
        0 <= i,
        char_from(s, c, i) is None,
    ensures
        forall|j: int| i <= j < s.len() ==> s[j] != c,
    decreases s.len() - i,
{
    if i < s.len() {
        lemma_absent_char(s, c, i + 1);
    }
}

/// The text in which a time is read: trimmed, and with a `Z` where it carries no offset.
pub open spec fn dated(value: Seq<char>) -> Option<Seq<char>> {
    let t = trimmed(value);
    if t.len() == 0 {
        None
    } else if t.last() == 'Z' || t.last() == 'z' || carries_offset(t) {
        Some(t)
    } else {
        Some(t.push('Z'))
    }
}

/// The text in which a time is read.
pub fn datetime_text(value: &str) -> (r: Option<String>)
    ensures
        seen(r) == dated(value@),
{
    let t = trim(value);
    let n = t.unicode_len();
    if n == 0 {
        return None;
    }
    let last: char = t.get_char(n - 1);
    let mut out = t.to_owned();
    if !(last == 'Z' || last == 'z' || contains_offset(t)) {
        out.push('Z');
    }
    Some(out)
}

/// Reads a time; one without an offset is taken as UTC.
pub fn parse_datetime(value: &str) -> (r: Option<Moment>)
    ensures
        r == (match dated(value@) {
            Some(text) => rfc3339_moment(text),
            None => None,
        }),
{
    match datetime_text(value) {
        Some(text) => parse_rfc3339(text.as_str()),
        None => None,
    }
}

/// Writes an instant in UTC, with `Z` as its offset.
pub fn format_datetime(value: Option<Moment>) -> (r: Option<String>)
    requires
        value matches Some(t) ==> is_instant(t),
    ensures
        seen(r) == (match value {
            Some(t) => Some(rfc3339_text(t)),
            None => None,
        }),
        r matches Some(text) ==> (-62_167_219_200 <= value->Some_0.secs <= 253_402_300_799
            ==> dated(text@) == Some(text@) && rfc3339_moment(text@) == value),
{
    match value {
        Some(t) => {
            let text = write_rfc3339(t);
            assert(trimmed(text@) == text@);
            Some(text)
        },
        None => None,
    }
}

/// The present time.
pub fn utc_now() -> (r: Moment)
    ensures
        is_reading(r),
{
    clock()
}

/// An identifier is what is left of a text without white space at its ends, in small letters: two
/// texts that agree in that hold the same one, and a blank text holds none.
pub proof fn identifiers_are_trimmed_and_small(a: Seq<char>, b: Seq<char>)
    ensures
        identifier(None) is None,
        lowercase(trimmed(a)).len() > 0 ==> identifier(Some(a)) == Some(lowercase(trimmed(a))),
        lowercase(trimmed(a)).len() == 0 ==> identifier(Some(a)) is None,
        lowercase(trimmed(a)) == lowercase(trimmed(b)) ==> identifier(Some(a)) == identifier(
            Some(b),
        ),
{
}

/// An account is shown by its nickname; without one by its address; without either by its home.
pub proof fn an_account_is_shown_by_its_best_name(a: AccountView)
    ensures
        a.nickname is Some && trimmed(a.nickname->Some_0).len() > 0 ==> a.shown_name() == trimmed(
            a.nickname->Some_0,
        ),
        (a.nickname is None || trimmed(a.nickname->Some_0).len() == 0) && a.email_hint is Some
            && a.email_hint->Some_0.len() > 0 ==> a.shown_name() == a.email_hint->Some_0,
        a.nickname is None && a.email_hint is None && a.home.file_name is Some ==> a.shown_name()
            == a.home.file_name->Some_0,
        a.nickname is None && a.email_hint is None && a.home.file_name is None ==> a.shown_name()
            == a.home.raw,
{
}

/// Owners are told apart by the first of these that both accounts, or for the provider's id either
/// of them, carry: the provider's account id, the subject, the address. An account with a
/// provider's id never belongs to the owner of one without. Homes count only where neither account
/// says anything of its owner.
pub proof fn owners_are_told_apart_by_the_strongest_mark(a: AccountView, b: AccountView)
    ensures
        identifier(a.provider_account_id) is Some && identifier(b.provider_account_id) is None
            ==> !a.same_owner(b),
        a.same_owner(b) ==> identifier(a.provider_account_id) == identifier(b.provider_account_id),
        a.provider_account_id is None && b.provider_account_id is None && identifier(
            a.auth_subject,
        ) is Some && identifier(b.auth_subject) is Some ==> (a.same_owner(b) <==> identifier(
            a.auth_subject,
        ) == identifier(b.auth_subject)),
        a.provider_account_id is None && b.provider_account_id is None && a.auth_subject is None
            && b.auth_subject is None && identifier(a.email_hint) is Some && identifier(
            b.email_hint,
        ) is Some ==> (a.same_owner(b) <==> identifier(a.email_hint) == identifier(b.email_hint)),
        a.provider_account_id is None && b.provider_account_id is None && a.auth_subject is None
            && b.auth_subject is None && a.email_hint is None && b.email_hint is None ==> (
        a.same_owner(b) <==> a.home.standardized == b.home.standardized),
        a.provider_account_id is None && b.provider_account_id is None && a.auth_subject is None
            && b.auth_subject is None && identifier(a.email_hint) is Some && b.email_hint is None
            ==> !a.same_owner(b),
        a.provider_account_id is None && b.provider_account_id is None && identifier(
            a.auth_subject,
        ) is Some && b.auth_subject is None && identifier(a.email_hint) is Some && identifier(
            b.email_hint,
        ) is Some ==> (a.same_owner(b) <==> identifier(a.email_hint) == identifier(b.email_hint)),
{
}

/// In a merge the account that the application owns, or of two alike the one that was good more
/// recently, says what the marks, the home and the source are; the other one only fills in what is
/// missing. The nickname stays, and the later times count.
pub proof fn a_merge_follows_the_better_account(a: AccountView, b: AccountView, t: Seq<char>)
    ensures
        ({
            let r = a.merged(b);
            let taken = b.source == CodexAccountSource::ManagedByApp && a.source
                == CodexAccountSource::Ambient || a.source == b.source && !b.recency().precedes(
                a.recency(),
            );
            &&& taken ==> r.home == b.home && r.source == b.source
            &&& !taken ==> r.home == a.home && r.source == a.source
            &&& taken && b.email_hint == Some(t) && trimmed(t).len() > 0 ==> r.email_hint == Some(t)
            &&& taken && b.auth_subject == Some(t) && trimmed(t).len() > 0 ==> r.auth_subject
                == Some(t)
            &&& taken && b.provider_account_id == Some(t) && trimmed(t).len() > 0
                ==> r.provider_account_id == Some(t)
            &&& !taken && a.email_hint is Some ==> r.email_hint == a.email_hint
            &&& !taken && a.auth_subject is Some ==> r.auth_subject == a.auth_subject
            &&& !taken && a.provider_account_id is Some ==> r.provider_account_id
                == a.provider_account_id
            &&& a.email_hint is None ==> r.email_hint == b.email_hint
            &&& a.auth_subject is None ==> r.auth_subject == b.auth_subject
            &&& a.provider_account_id is None ==> r.provider_account_id == b.provider_account_id
            &&& a.nickname is None ==> r.nickname == b.nickname
            &&& r.updated_at == a.updated_at || r.updated_at == b.updated_at
            &&& b.updated_at.precedes(a.updated_at) ==> r.updated_at == a.updated_at
            &&& a.updated_at.precedes(b.updated_at) ==> r.updated_at == b.updated_at
            &&& a.last_authenticated_at is None ==> r.last_authenticated_at
                == b.last_authenticated_at
            &&& b.last_authenticated_at is None ==> r.last_authenticated_at
                == a.last_authenticated_at
        }),
{
}

/// An account was good when it was last signed in to, else when it was last changed.
pub proof fn recency_is_the_last_sign_in(a: AccountView, t: Moment)
    ensures
        a.last_authenticated_at == Some(t) ==> a.recency() == t,
        a.last_authenticated_at is None ==> a.recency() == a.updated_at,
        CodexAccountSource::ManagedByApp.owned() && !CodexAccountSource::Ambient.owned(),
{
}

/// What is kept of a removed account is all that names it, and where it lay.
pub proof fn a_removed_identity_keeps_every_mark(account: AccountView, id: u128, at: Moment)
    ensures
        ({
            let r = RemovedView::of(account, id, at);
            &&& r.id == id
            &&& r.removed_at == at
            &&& r.email_hint == account.email_hint
            &&& r.auth_subject == account.auth_subject
            &&& r.provider_account_id == account.provider_account_id
            &&& r.home == account.home
            &&& r.source == account.source
        }),
{
}

/// A removed account is known again by its home or by its provider's account id, and by subject or
/// address only where no provider's id is known on either side. An account with another home and
/// another provider's id is another account.
pub proof fn removed_accounts_are_known_by_their_marks(r: RemovedView, a: AccountView)
    ensures
        r.home.standardized == a.home.standardized ==> r.recognizes(a),
        identifier(r.provider_account_id) is Some && identifier(r.provider_account_id)
            == identifier(a.provider_account_id) ==> r.recognizes(a),
        r.home.standardized != a.home.standardized && identifier(a.provider_account_id) is Some
            && identifier(r.provider_account_id) != identifier(a.provider_account_id)
            ==> !r.recognizes(a),
        r.provider_account_id is None && a.provider_account_id is None && identifier(
            r.auth_subject,
        ) is Some && identifier(r.auth_subject) == identifier(a.auth_subject) ==> r.recognizes(a),
        r.provider_account_id is None && a.provider_account_id is None && identifier(
            r.email_hint,
        ) is Some && identifier(r.email_hint) == identifier(a.email_hint) ==> r.recognizes(a),
        r.home.standardized != a.home.standardized && identifier(r.provider_account_id)
            != identifier(a.provider_account_id) && identifier(r.auth_subject) != identifier(
            a.auth_subject,
        ) && identifier(r.email_hint) != identifier(a.email_hint) ==> !r.recognizes(a),
        r.home.standardized != a.home.standardized && r.provider_account_id is None
            && r.auth_subject is None && r.email_hint is None ==> !r.recognizes(a),
{
}

/// The kinds of windows are told by their lengths: five hours, seven days, thirty days.
pub proof fn windows_are_told_by_their_lengths(n: i64)
    ensures
        role_of(n) == WindowRole::Session <==> n == 5 * 60 * 60,
        role_of(n) == WindowRole::Weekly <==> n == 7 * 24 * 60 * 60,
        role_of(n) == WindowRole::Monthly <==> n == 30 * 24 * 60 * 60,
{
}

/// Of a window of which `n` percent are used, a hundred less `n` percent are left.
pub proof fn what_is_left_is_what_is_not_used(w: UsageWindowSnapshot, n: int)
    requires
        w.used_percent.scaled == n * 0x1_0000_0000_0000_0000,
        0 <= n <= 100,
    ensures
        w.remaining() == (100 - n) * 0x1_0000_0000_0000_0000,
{
    two_to_64();
    doubles_are_not_rounded((100 - n) as nat, 64);
}

/// Of two windows the one of which more is used has no more left.
pub proof fn more_use_leaves_no_more(a: UsageWindowSnapshot, b: UsageWindowSnapshot)
    requires
        b.used_percent.scaled >= WHOLE,
    ensures
        b.remaining() <= a.remaining(),
        b.remaining() == 0,
{
    remaining_is_bounded(a);
}

/// A balance is rounded to the nearest hundredth: what is shown is off by at most half of one.
pub proof fn hundredths_are_the_nearest(scaled: nat)
    ensures
        -0x1_0000_0000_0000_0000 <= 2 * (hundredths(scaled) * 0x1_0000_0000_0000_0000 - scaled * 100)
            <= 0x1_0000_0000_0000_0000,
{
    let n = (scaled * 100) as int;
    vstd::arithmetic::div_mod::lemma_fundamental_div_mod(n, ONE as int);
    let whole = n / ONE as int;
    let rest = n % ONE as int;
    assert(n == ONE * whole + rest);
    assert((whole + 1) * ONE == ONE * whole + ONE) by (nonlinear_arith);
    assert(whole * ONE == ONE * whole) by (nonlinear_arith);
}

/// A balance is shown with the digits of its hundredths, the last two behind the point.
pub proof fn a_balance_is_shown_by_its_hundredths(n: nat, tenth: nat, last: nat)
    requires
        tenth < 10,
        last < 10,
    ensures
        hundredths(n) / 10 % 10 == tenth && hundredths(n) % 10 == last ==> two_decimals(n as int)
            == digits(hundredths(n) / 100) + seq!['.'] + digits(tenth) + digits(last),
        n > 0 ==> two_decimals(-(n as int)) == seq!['-'] + two_decimals(n as int),
{
    assert(two_decimals(n as int) =~= digits(hundredths(n) / 100) + seq!['.'] + digits(
        hundredths(n) / 10 % 10,
    ) + digits(hundredths(n) % 10));
    if n > 0 {
        assert(two_decimals(-(n as int)) =~= seq!['-'] + two_decimals(n as int));
    }
}

/// What ends in a character loses every one of it at its end and nothing else.
pub proof fn only_trailing_characters_go(s: Seq<char>, c: char)
    ensures
        without_trailing(s, c).is_prefix_of(s),
        without_trailing(s, c).len() > 0 ==> without_trailing(s, c).last() != c,
        forall|i: int| without_trailing(s, c).len() <= i < s.len() ==> s[i] == c,
    decreases s.len(),
{
    if s.len() > 0 && s.last() == c {
        only_trailing_characters_go(s.drop_last(), c);
        let r = without_trailing(s, c);
        assert(r =~= s.take(r.len() as int)) by {
            assert(r =~= s.drop_last().take(r.len() as int));
        }
        assert forall|i: int| r.len() <= i < s.len() implies s[i] == c by {
            if i < s.len() - 1 {
                assert(s.drop_last()[i] == s[i]);
            }
        }
    } else {
        assert(s =~= s.take(s.len() as int));
    }
}

/// An account is blocked where the provider says that the limit is reached, or does not let it
/// through, and not otherwise.
pub proof fn an_account_is_blocked_by_its_provider(s: SnapshotView)
    ensures
        s.limit_reached == Some(true) ==> s.blocked(),
        s.allowed == Some(false) ==> s.blocked(),
        s.limit_reached != Some(true) && s.allowed != Some(false) ==> !s.blocked(),
{
}

/// An account that is not blocked is usable where a hundredth of a percent or more is left of some
/// window, and not where nothing is left of any.
pub proof fn an_account_is_usable_while_anything_is_left(s: SnapshotView, w: UsageWindowSnapshot)
    requires
        !s.blocked(),
    ensures
        s.primary_window == Some(w) && 100 * w.remaining() >= 0x1_0000_0000_0000_0000
            ==> s.usable(),
        s.secondary_window == Some(w) && 100 * w.remaining() >= 0x1_0000_0000_0000_0000
            ==> s.usable(),
        (s.primary_window matches Some(p) ==> p.remaining() == 0) && (s.secondary_window matches Some(
            q,
        ) ==> q.remaining() == 0) ==> !s.usable(),
{
}

/// The least that is left is what is left of some window, and no window has less.
pub proof fn the_least_left_is_that_of_a_window(s: SnapshotView)
    requires
        !s.blocked(),
        s.primary_window is Some || s.secondary_window is Some,
    ensures
        s.primary_window matches Some(w) ==> s.lowest() <= w.remaining(),
        s.secondary_window matches Some(w) ==> s.lowest() <= w.remaining(),
        s.primary_window is Some && s.lowest() == s.primary_window->Some_0.remaining()
            || s.secondary_window is Some && s.lowest() == s.secondary_window->Some_0.remaining(),
{
}

/// The next reset is that of some window, and no window is reset before it.
pub proof fn the_next_reset_is_the_earliest(s: SnapshotView)
    ensures
        s.next_reset() matches Some(t) ==> {
            &&& s.primary_window is Some && s.primary_window->Some_0.reset_at == Some(t)
                || s.secondary_window is Some && s.secondary_window->Some_0.reset_at == Some(t)
            &&& s.primary_window matches Some(w) ==> w.reset_at matches Some(x) ==> !x.precedes(t)
            &&& s.secondary_window matches Some(w) ==> w.reset_at matches Some(x) ==> !x.precedes(t)
        },
        s.next_reset() is None <==> (s.primary_window matches Some(w) ==> w.reset_at is None) && (
        s.secondary_window matches Some(w) ==> w.reset_at is None),
{
}

/// A time is read as it is written where it ends in `Z`, and as one in UTC where nothing says
/// otherwise; white space around it does not count, and a blank text is no time.
pub proof fn times_are_read_in_utc_unless_they_say_otherwise(value: Seq<char>)
    ensures
        trimmed(value).len() == 0 ==> dated(value) is None,
        trimmed(value).len() > 0 && trimmed(value).last() == 'Z' ==> dated(value) == Some(
            trimmed(value),
        ),
        trimmed(value).len() > 0 && trimmed(value).last() != 'Z' && trimmed(value).last() != 'z'
            && !trimmed(value).contains('+') && !trimmed(value).contains('-') ==> dated(value)
            == Some(trimmed(value) + seq!['Z']),
        dated(value) matches Some(d) ==> d == trimmed(value) || d == trimmed(value) + seq!['Z'],
{
    let t = trimmed(value);
    assert(t + seq!['Z'] =~= t.push('Z'));
    if !t.contains('+') && !t.contains('-') {
        if let Some(k) = time_from(t, 0) {
            lemma_time_from(t, 0);
            let rest = t.skip(k + 1);
            assert forall|j: int| 0 <= j < rest.len() implies rest[j] != '+' && rest[j] != '-' by {
                assert(rest[j] == t[k + 1 + j]);
                assert(t.contains(t[k + 1 + j]));
            }
            lemma_no_sign(rest, rest.len() as int);
        }
    }
}

proof fn lemma_time_from(s: Seq<char>, i: int)
    requires
        0 <= i,
    ensures
        time_from(s, i) matches Some(k) ==> i <= k < s.len(),
    decreases s.len() - i,
{
    if i < s.len() && !parts_date_and_time(s[i]) {
        lemma_time_from(s, i + 1);
    }
}

proof fn lemma_no_sign(s: Seq<char>, end: int)
    requires
        end <= s.len(),
        forall|j: int| 0 <= j < s.len() ==> s[j] != '+' && s[j] != '-',
    ensures
        last_sign(s, end) is None,
    decreases end,
{
    if end > 0 {
        lemma_no_sign(s, end - 1);
    }
}

/// A date and a time with an offset behind them are read with that offset.
pub proof fn offsets_are_kept(day: Seq<char>, time: Seq<char>, sign: char, offset: Seq<char>)
    requires
        sign == '+' || sign == '-',
        forall|i: int| 0 <= i < day.len() ==> !parts_date_and_time(#[trigger] day[i]),
        offset.len() == 5,
        is_digit(offset[0]),
        is_digit(offset[1]),
        offset[2] == ':',
        is_digit(offset[3]),
        is_digit(offset[4]),
    ensures
        carries_offset(day + seq!['T'] + time + seq![sign] + offset),
{
    let s = day + seq!['T'] + time + seq![sign] + offset;
    lemma_time_at(s, 0, day.len() as int);
    let rest = s.skip(day.len() as int + 1);
    assert(rest =~= time + seq![sign] + offset);
    let k = time.len() as int;
    assert(rest[k] == sign);
    lemma_last_sign_at(rest, rest.len() as int, k);
    let tail = rest.skip(k + 1);
    assert(tail =~= offset);
    assert(tail[2] == ':');
    assert(tail.contains(':'));
}

proof fn lemma_time_at(s: Seq<char>, i: int, k: int)
    requires
        0 <= i <= k < s.len(),
        parts_date_and_time(s[k]),
        forall|j: int| i <= j < k ==> !parts_date_and_time(#[trigger] s[j]),
    ensures
        time_from(s, i) == Some(k),
    decreases k - i,
{
    if i < k {
        assert(!parts_date_and_time(s[i]));
        lemma_time_at(s, i + 1, k);
    }
}

proof fn lemma_last_sign_at(s: Seq<char>, end: int, k: int)
    requires
        0 <= k < end <= s.len(),
        s[k] == '+' || s[k] == '-',
        forall|j: int| k < j < end ==> s[j] != '+' && s[j] != '-',
    ensures
        last_sign(s, end) == Some(k),
    decreases end,
{
    if end - 1 > k {
        lemma_last_sign_at(s, end - 1, k);
    }
}

/// A balance that has no end is told as such, whatever else is known; one that is known is told by
/// its amount, without zeros at its end; else whether there are credits.
pub proof fn a_balance_is_told_by_what_is_known(c: &CreditsBalanceSnapshot, r: String)
    requires
        call_ensures(CreditsBalanceSnapshot::display_value, (c,), r),
    ensures
        c.unlimited ==> r@ == "Unlimited"@,
        !c.unlimited && c.balance is None && c.has_credits ==> r@ == "Available"@,
        !c.unlimited && c.balance is None && !c.has_credits ==> r@ == "None"@,
        !c.unlimited && c.balance is Some ==> {
            let whole = two_decimals(c.balance->Some_0.scaled as int);
            &&& r@.is_prefix_of(whole)
            &&& r@.len() > 0 ==> r@.last() != '.'
        },
{
    if !c.unlimited && c.balance is Some {
        let whole = two_decimals(c.balance->Some_0.scaled as int);
        let a = without_trailing(whole, '0');
        let b = without_trailing(a, '.');
        only_trailing_characters_go(whole, '0');
        only_trailing_characters_go(a, '.');
        assert(b =~= a.take(b.len() as int));
        assert(a =~= whole.take(a.len() as int));
        assert(b =~= whole.take(b.len() as int));
    }
}

/// A half is rounded to the even hundredth.
pub proof fn halves_go_to_the_even_hundredth(scaled: nat, n: nat)
    requires
        scaled * 200 == (2 * n + 1) * 0x1_0000_0000_0000_0000,
    ensures
        hundredths(scaled) % 2 == 0,
        hundredths(scaled) == n || hundredths(scaled) == n + 1,
{
    let h: int = 0x8000_0000_0000_0000;
    assert(scaled * 100 == n * ONE + h);
    vstd::arithmetic::div_mod::lemma_fundamental_div_mod_converse(
        (scaled * 100) as int,
        ONE as int,
        n as int,
        h,
    );
}

/// Accounts that can be used come first, then those that will be reset, then the rest.
pub proof fn usable_accounts_come_first(
    a: &AccountUsageSnapshot,
    b: &AccountUsageSnapshot,
    p: u8,
    q: u8,
)
    requires
        call_ensures(account_sort_priority, (a,), p),
        call_ensures(account_sort_priority, (b,), q),
    ensures
        a@.usable() && !b@.usable() ==> p < q,
        !a@.usable() && !b@.usable() && a@.next_reset() is Some && b@.next_reset() is None ==> p < q,
        a@.usable() && b@.usable() ==> p == q,
{
}

} // verus!
