//! Saved logins of the tool. Only the OAuth credentials and the identity of an account move when
//! accounts are switched; everything else in the two files stays in place.

use vstd::prelude::*;
use vstd::utf8::encode_utf8;
use crate::claude::errors::{AccountError, AccountErrorView};
use crate::claude::tool::Tool;
use vstd::string::StrSliceExecFns;
use crate::json::{alike, alike_to, is_readable, items_value, json_compact, json_of_bytes, json_parsed, json_pretty, lookup, lookup_text, member, parse_json, lemma_alike_deeper, lemma_alike_members, lemma_alike_texts, lemma_items, lemma_readable_deeper, lemma_readable_insert, lemma_readable_member, parse_json_bytes, readable_to, reads_as, says, write_json_compact, write_json_pretty, Json, JsonObject, JsonValue};
use crate::text::{a_path_leads_to_its_part, concat3, join_path, path_with, same, seen, trim, trimmed};

verus! {

/// What is shown of an account.
#[derive(Debug)]
pub struct ClaudeAccount {
    pub id: String,
    pub email: String,
    pub organization: Option<String>,
    pub plan: Option<String>,
    pub is_active: bool,
    pub is_saved: bool,
}

#[verifier::ext_equal]
pub struct ClaudeAccountView {
    pub id: Seq<char>,
    pub email: Seq<char>,
    pub organization: Option<Seq<char>>,
    pub plan: Option<Seq<char>>,
    pub is_active: bool,
    pub is_saved: bool,
}

impl View for ClaudeAccount {
    type V = ClaudeAccountView;

    open spec fn view(&self) -> ClaudeAccountView {
        ClaudeAccountView {
            id: self.id@,
            email: self.email@,
            organization: seen(self.organization),
            plan: seen(self.plan),
            is_active: self.is_active,
            is_saved: self.is_saved,
        }
    }
}

/// A login: its credentials and whose it is.
#[derive(Debug)]
pub struct SavedLogin {
    pub oauth: Json,
    pub identity: Json,
}

#[verifier::ext_equal]
pub struct LoginValue {
    pub oauth: JsonValue,
    pub identity: JsonValue,
}

impl View for SavedLogin {
    type V = LoginValue;

    open spec fn view(&self) -> LoginValue {
        LoginValue { oauth: self.oauth@, identity: self.identity@ }
    }
}

impl Clone for SavedLogin {
    fn clone(&self) -> (r: SavedLogin)
        ensures
            r@ == self@,
    {
        SavedLogin { oauth: self.oauth.clone(), identity: self.identity.clone() }
    }
}

/// The text under `key`, where it is there and not blank.
pub open spec fn required(object: JsonValue, key: Seq<char>) -> Option<Seq<char>> {
    match lookup_text(object, key) {
        Some(s) => if trimmed(s).len() > 0 {
            Some(s)
        } else {
            None
        },
        None => None,
    }
}

/// The text under `key`, or that it is missing.
fn required_string<'a>(object: &'a Json, key: &str) -> (r: Result<&'a str, AccountError>)
    ensures
        r matches Ok(s) ==> required(object@, key@) == Some(s@),
        r matches Err(e) ==> required(object@, key@) is None && e@ == AccountErrorView::MissingField(key@),
{
    if let Some(s) = object.text_at(key) {
        if !trim(s).is_empty() {
            return Ok(s);
        }
    }
    Err(AccountError::MissingField(key.to_owned()))
}

impl LoginValue {
    /// The id of a login: its account and its organization.
    pub open spec fn id(self) -> Option<Seq<char>> {
        match (required(self.identity, "accountUuid"@), required(self.identity, "organizationUuid"@)) {
            (Some(account), Some(org)) => Some(account + ":"@ + org),
            _ => None,
        }
    }

    /// The first part of the id that is missing.
    pub open spec fn missing_in_id(self) -> Option<Seq<char>> {
        if required(self.identity, "accountUuid"@) is None {
            Some("accountUuid"@)
        } else if required(self.identity, "organizationUuid"@) is None {
            Some("organizationUuid"@)
        } else {
            None
        }
    }

    /// The first part of the login that is missing.
    pub open spec fn missing(self) -> Option<Seq<char>> {
        if self.missing_in_id() is Some {
            self.missing_in_id()
        } else if required(self.identity, "emailAddress"@) is None {
            Some("emailAddress"@)
        } else if required(self.oauth, "accessToken"@) is None {
            Some("accessToken"@)
        } else if required(self.oauth, "refreshToken"@) is None {
            Some("refreshToken"@)
        } else {
            None
        }
    }

    /// What is shown of the login.
    pub open spec fn shown(self, active: bool, saved: bool) -> ClaudeAccountView {
        ClaudeAccountView {
            id: self.id()->Some_0,
            email: required(self.identity, "emailAddress"@)->Some_0,
            organization: lookup_text(self.identity, "organizationName"@),
            plan: lookup_text(self.oauth, "subscriptionType"@),
            is_active: active,
            is_saved: saved,
        }
    }

    /// The part that keeps a login from being shown.
    pub open spec fn missing_to_show(self) -> Option<Seq<char>> {
        if self.missing_in_id() is Some {
            self.missing_in_id()
        } else if required(self.identity, "emailAddress"@) is None {
            Some("emailAddress"@)
        } else {
            None
        }
    }
}

/// The id in an identity.
fn identity_id(identity: &Json) -> (r: Result<String, AccountError>)
    ensures
        ({
            let login = LoginValue { oauth: JsonValue::Null, identity: identity@ };
            &&& r matches Ok(id) ==> login.id() == Some(id@) && login.missing_in_id() is None
            &&& r matches Err(e) ==> login.id() is None && login.missing_in_id() is Some && e@
                == AccountErrorView::MissingField(login.missing_in_id()->Some_0)
        }),
{
    let account = match required_string(identity, "accountUuid") {
        Ok(s) => s,
        Err(e) => {
            return Err(e);
        },
    };
    let org = match required_string(identity, "organizationUuid") {
        Ok(s) => s,
        Err(e) => {
            return Err(e);
        },
    };
    Ok(concat3(account, ":", org))
}

impl SavedLogin {
    /// The id of the login.
    pub fn id(&self) -> (r: Result<String, AccountError>)
        ensures
            r matches Ok(id) ==> self@.id() == Some(id@),
            r is Ok <==> self@.id() is Some,
            r is Ok <==> self@.missing_in_id() is None,
            r matches Err(e) ==> e@ == AccountErrorView::MissingField(self@.missing_in_id()->Some_0),
    {
        identity_id(&self.identity)
    }

    /// Whether the login is complete.
    pub fn validate(&self) -> (r: Result<(), AccountError>)
        ensures
            r is Ok <==> self@.missing() is None,
            r matches Err(e) ==> e@ == AccountErrorView::MissingField(self@.missing()->Some_0),
    {
        if let Err(e) = self.id() {
            return Err(e);
        }
        if let Err(e) = required_string(&self.identity, "emailAddress") {
            return Err(e);
        }
        if let Err(e) = required_string(&self.oauth, "accessToken") {
            return Err(e);
        }
        if let Err(e) = required_string(&self.oauth, "refreshToken") {
            return Err(e);
        }
        Ok(())
    }

    /// What is shown of the login.
    pub fn summary(&self, active: bool, saved: bool) -> (r: Result<ClaudeAccount, AccountError>)
        ensures
            r is Ok <==> self@.missing_to_show() is None,
            r matches Ok(a) ==> a@ == self@.shown(active, saved),
            r matches Err(e) ==> e@ == AccountErrorView::MissingField(self@.missing_to_show()->Some_0),
    {
        let id = match self.id() {
            Ok(id) => id,
            Err(e) => {
                return Err(e);
            },
        };
        let email = match required_string(&self.identity, "emailAddress") {
            Ok(email) => email.to_owned(),
            Err(e) => {
                return Err(e);
            },
        };
        let organization = match self.identity.text_at("organizationName") {
            Some(s) => Some(s.to_owned()),
            None => None,
        };
        let plan = match self.oauth.text_at("subscriptionType") {
            Some(s) => Some(s.to_owned()),
            None => None,
        };
        Ok(ClaudeAccount { id, email, organization, plan, is_active: active, is_saved: saved })
    }
}

/// What reading a file came to.
pub enum BytesRead {
    Contents(Vec<u8>),
    NotFound,
    Failed(String),
}

/// The object in a file: an empty one where there is no file.
pub open spec fn object_in(file: BytesRead) -> Result<Map<Seq<char>, JsonValue>, AccountErrorView> {
    match file {
        BytesRead::Contents(data) => match json_of_bytes(data@) {
            None => Err(AccountErrorView::InvalidConfig),
            Some(JsonValue::Object(m)) => Ok(m),
            Some(_) => Err(AccountErrorView::ConfigNotObject),
        },
        BytesRead::NotFound => Ok(Map::empty()),
        BytesRead::Failed(e) => Err(AccountErrorView::Other(e@)),
    }
}

/// The object in a file.
pub fn read_object(file: &BytesRead) -> (r: Result<JsonObject, AccountError>)
    ensures
        r matches Ok(o) ==> object_in(*file) == Ok::<Map<Seq<char>, JsonValue>, AccountErrorView>(o@),
        r matches Err(e) ==> object_in(*file) == Err::<Map<Seq<char>, JsonValue>, AccountErrorView>(e@),
        r matches Ok(o) ==> is_readable(JsonValue::Object(o@)),
{
    match file {
        BytesRead::Contents(data) => match parse_json_bytes(data.as_slice()) {
            None => Err(AccountError::InvalidConfig),
            Some(Json::Object(o)) => Ok(o),
            Some(_) => Err(AccountError::ConfigNotObject),
        },
        BytesRead::NotFound => Ok(JsonObject::new()),
        BytesRead::Failed(e) => Err(AccountError::Other(e.clone())),
    }
}

/// The login that two objects hold: none without credentials.
pub open spec fn login_of(
    credentials: Map<Seq<char>, JsonValue>,
    config: Map<Seq<char>, JsonValue>,
) -> Option<LoginValue> {
    match member(credentials, "claudeAiOauth"@) {
        None => None,
        Some(JsonValue::Null) => None,
        Some(oauth) => Some(
            LoginValue {
                oauth,
                identity: match member(config, "oauthAccount"@) {
                    Some(v) => v,
                    None => JsonValue::Null,
                },
            },
        ),
    }
}

/// The login in a credentials file and a configuration file. The configuration is only
/// looked at where there are credentials, and an incomplete login is an error.
pub open spec fn login_in(credentials: BytesRead, config: BytesRead) -> Result<
    Option<LoginValue>,
    AccountErrorView,
> {
    match object_in(credentials) {
        Err(e) => Err(e),
        Ok(c) => if login_of(c, Map::empty()) is None {
            Ok(None)
        } else {
            match object_in(config) {
                Err(e) => Err(e),
                Ok(g) => {
                    let login = login_of(c, g)->Some_0;
                    match login.missing() {
                        Some(key) => Err(AccountErrorView::MissingField(key)),
                        None => Ok(Some(login)),
                    }
                },
            }
        },
    }
}

/// What reading a login holds.
pub open spec fn login_seen(r: Result<Option<SavedLogin>, AccountError>) -> Result<
    Option<LoginValue>,
    AccountErrorView,
> {
    match r {
        Ok(Some(login)) => Ok(Some(login@)),
        Ok(None) => Ok(None),
        Err(e) => Err(e@),
    }
}

/// The login in a credentials file and a configuration file.
pub fn read_login(credentials: &BytesRead, config: &BytesRead) -> (r: Result<
    Option<SavedLogin>,
    AccountError,
>)
    ensures
        login_seen(r) == login_in(*credentials, *config),
{
    let c = match read_object(credentials) {
        Ok(c) => c,
        Err(e) => {
            return Err(e);
        },
    };
    let oauth = match c.get("claudeAiOauth") {
        None => {
            return Ok(None);
        },
        Some(Json::Null) => {
            return Ok(None);
        },
        Some(v) => v.clone(),
    };
    let g = match read_object(config) {
        Ok(g) => g,
        Err(e) => {
            return Err(e);
        },
    };
    let identity = match g.get("oauthAccount") {
        Some(v) => v.clone(),
        None => Json::Null,
    };
    let login = SavedLogin { oauth, identity };
    match login.validate() {
        Ok(()) => Ok(Some(login)),
        Err(e) => Err(e),
    }
}

pub open spec fn login_values(v: Seq<SavedLogin>) -> Seq<LoginValue> {
    v.map_values(|a: SavedLogin| a@)
}

/// The position of the first login with the given id.
pub open spec fn position_of(accounts: Seq<LoginValue>, id: Seq<char>, i: int) -> Option<int>
    decreases accounts.len() - i,
{
    if i >= accounts.len() {
        None
    } else if accounts[i].id() == Some(id) {
        Some(i)
    } else {
        position_of(accounts, id, i + 1)
    }
}

/// The logins with `login` among them: in place of the first with its id, else at the end.
pub open spec fn upserted(accounts: Seq<LoginValue>, login: LoginValue) -> Seq<LoginValue> {
    match position_of(accounts, login.id()->Some_0, 0) {
        Some(i) => accounts.update(i, login),
        None => accounts.push(login),
    }
}

/// The logins without those that have the given id.
pub open spec fn without(accounts: Seq<LoginValue>, id: Seq<char>) -> Seq<LoginValue>
    decreases accounts.len(),
{
    if accounts.len() == 0 {
        Seq::empty()
    } else {
        let rest = without(accounts.drop_last(), id);
        if accounts.last().id() == Some(id) {
            rest
        } else {
            rest.push(accounts.last())
        }
    }
}

/// The login that a stored value holds: an object with both parts, or an array of the two.
pub open spec fn stored_login(v: JsonValue) -> Option<LoginValue> {
    match v {
        JsonValue::Array(parts) => if parts.len() == 2 {
            Some(LoginValue { oauth: parts[0], identity: parts[1] })
        } else {
            None
        },
        _ => match (lookup(v, "oauth"@), lookup(v, "identity"@)) {
            (Some(oauth), Some(identity)) => Some(LoginValue { oauth, identity }),
            _ => None,
        },
    }
}

/// The two parts of the login that a stored value holds.
fn login_parts<'a>(v: &'a Json) -> (r: Option<(&'a Json, &'a Json)>)
    ensures
        r matches Some((oauth, identity)) ==> stored_login(v@) == Some(
            LoginValue { oauth: oauth@, identity: identity@ },
        ),
        r is None <==> stored_login(v@) is None,
{
    if let Json::Array(parts) = v {
        proof {
            lemma_items(parts@);
        }
        return if parts.len() == 2 {
            Some((&parts[0], &parts[1]))
        } else {
            None
        };
    }
    match (v.get("oauth"), v.get("identity")) {
        (Some(oauth), Some(identity)) => Some((oauth, identity)),
        _ => None,
    }
}

/// The logins that stored values hold; `None` where one of them holds none.
pub open spec fn stored_logins(items: Seq<JsonValue>) -> Option<Seq<LoginValue>>
    decreases items.len(),
{
    if items.len() == 0 {
        Some(Seq::empty())
    } else {
        match (stored_logins(items.drop_last()), stored_login(items.last())) {
            (Some(rest), Some(login)) => Some(rest.push(login)),
            _ => None,
        }
    }
}

/// The stored values in a document: an object with a list of them, or an array of such a list.
pub open spec fn store_items(v: JsonValue) -> Option<Seq<JsonValue>> {
    let list = match v {
        JsonValue::Array(parts) => if parts.len() == 1 {
            Some(parts[0])
        } else {
            None
        },
        _ => lookup(v, "accounts"@),
    };
    match list {
        Some(JsonValue::Array(items)) => Some(items),
        _ => None,
    }
}

/// The stored values in a document.
fn stored_items<'a>(v: &'a Json) -> (r: Option<&'a Vec<Json>>)
    ensures
        r matches Some(items) ==> store_items(v@) == Some(items_value(items@)),
        r is None <==> store_items(v@) is None,
{
    let list = match v {
        Json::Array(parts) => {
            proof {
                lemma_items(parts@);
            }
            if parts.len() == 1 {
                Some(&parts[0])
            } else {
                None
            }
        },
        _ => v.get("accounts"),
    };
    match list {
        Some(Json::Array(items)) => Some(items),
        _ => None,
    }
}

/// The logins in a stored document.
pub open spec fn store_in(v: JsonValue) -> Option<Seq<LoginValue>> {
    match store_items(v) {
        Some(items) => stored_logins(items),
        None => None,
    }
}

/// A login as it is stored.
pub open spec fn login_document(login: LoginValue) -> JsonValue {
    JsonValue::Object(
        Map::<Seq<char>, JsonValue>::empty().insert("oauth"@, login.oauth).insert(
            "identity"@,
            login.identity,
        ),
    )
}

/// Logins as they are stored.
pub open spec fn store_document(accounts: Seq<LoginValue>) -> JsonValue {
    JsonValue::Object(
        Map::<Seq<char>, JsonValue>::empty().insert(
            "accounts"@,
            JsonValue::Array(accounts.map_values(|a: LoginValue| login_document(a))),
        ),
    )
}

/// Whether two logins are the same but for the values of doubles in them.
pub open spec fn alike_logins(a: LoginValue, b: LoginValue) -> bool {
    alike(a.oauth, b.oauth) && alike(a.identity, b.identity)
}

/// Whether every login can be read back where it is stored.
pub open spec fn readable_logins(accounts: Seq<LoginValue>) -> bool {
    forall|i: int|
        0 <= i < accounts.len() ==> readable_to((#[trigger] accounts[i]).oauth, 124) && readable_to(
            accounts[i].identity,
            124,
        )
}

/// Logins that can be read back are stored in a document that can be read.
pub proof fn readable_logins_make_a_readable_store(accounts: Seq<LoginValue>)
    requires
        readable_logins(accounts),
    ensures
        is_readable(store_document(accounts)),
{
    let items = accounts.map_values(|a: LoginValue| login_document(a));
    assert forall|i: int| 0 <= i < items.len() implies readable_to(#[trigger] items[i], 125) by {
        let none = Map::<Seq<char>, JsonValue>::empty();
        assert(accounts[i] == accounts[i]);
        assert(readable_to(JsonValue::Object(none), 125));
        lemma_readable_insert(none, "oauth"@, accounts[i].oauth, 125);
        lemma_readable_insert(
            none.insert("oauth"@, accounts[i].oauth),
            "identity"@,
            accounts[i].identity,
            125,
        );
    }
    let list = JsonValue::Array(items);
    assert(readable_to(list, 126));
    let none = Map::<Seq<char>, JsonValue>::empty();
    assert(readable_to(JsonValue::Object(none), 127));
    lemma_readable_insert(none, "accounts"@, list, 127);
}

/// Loading the text brings these logins, but for the values of doubles in them.
pub open spec fn stored_text_holds(text: Seq<char>, accounts: Seq<LoginValue>) -> bool {
    &&& json_parsed(text) is Ok
    &&& store_in(json_parsed(text)->Ok_0) is Some
    &&& ({
        let loaded = store_in(json_parsed(text)->Ok_0)->Some_0;
        loaded.len() == accounts.len() && forall|i: int|
            0 <= i < accounts.len() ==> alike_logins(#[trigger] loaded[i], accounts[i])
    })
}

/// Logins that differ in doubles alone are complete together, have one id, and look the same.
pub proof fn doubles_do_not_change_a_login(a: LoginValue, b: LoginValue)
    requires
        alike_logins(a, b),
    ensures
        a.id() == b.id(),
        a.missing() == b.missing(),
        a.missing_to_show() == b.missing_to_show(),
        forall|active: bool, saved: bool| #[trigger]
            a.shown(active, saved) == b.shown(active, saved),
{
    lemma_alike_texts(a.identity, b.identity, 127, "accountUuid"@);
    lemma_alike_texts(a.identity, b.identity, 127, "organizationUuid"@);
    lemma_alike_texts(a.identity, b.identity, 127, "emailAddress"@);
    lemma_alike_texts(a.identity, b.identity, 127, "organizationName"@);
    lemma_alike_texts(a.oauth, b.oauth, 127, "accessToken"@);
    lemma_alike_texts(a.oauth, b.oauth, 127, "refreshToken"@);
    lemma_alike_texts(a.oauth, b.oauth, 127, "subscriptionType"@);
}

/// A document that is a store of logins but for doubles holds those logins but for doubles.
proof fn lemma_alike_store(w: JsonValue, accounts: Seq<LoginValue>)
    requires
        alike(w, store_document(accounts)),
    ensures
        store_in(w) is Some,
        store_in(w)->Some_0.len() == accounts.len(),
        forall|i: int|
            0 <= i < accounts.len() ==> alike_logins(
                #[trigger] store_in(w)->Some_0[i],
                accounts[i],
            ),
{
    let m = w->Object_0;
    let n = store_document(accounts)->Object_0;
    lemma_alike_members(m, n, 127, "accounts"@);
    let items = m["accounts"@]->Array_0;
    lemma_alike_items(items, accounts);
}

proof fn lemma_alike_items(items: Seq<JsonValue>, accounts: Seq<LoginValue>)
    requires
        items.len() == accounts.len(),
        forall|i: int|
            0 <= i < items.len() ==> alike_to(
                #[trigger] items[i],
                login_document(accounts[i]),
                125,
            ),
    ensures
        stored_logins(items) is Some,
        stored_logins(items)->Some_0.len() == accounts.len(),
        forall|i: int|
            0 <= i < accounts.len() ==> alike_logins(
                #[trigger] stored_logins(items)->Some_0[i],
                accounts[i],
            ),
    decreases items.len(),
{
    if items.len() > 0 {
        let before = items.drop_last();
        let rest = accounts.drop_last();
        assert forall|i: int| 0 <= i < before.len() implies alike_to(
            #[trigger] before[i],
            login_document(rest[i]),
            125,
        ) by {
            assert(before[i] == items[i]);
        }
        lemma_alike_items(before, rest);
        let k = items.len() - 1;
        assert(alike_to(items[k], login_document(accounts[k]), 125));
        let m = items[k]->Object_0;
        let n = login_document(accounts[k])->Object_0;
        reveal_strlit("oauth");
        reveal_strlit("identity");
        assert("oauth"@.len() == 5 && "identity"@.len() == 8);
        lemma_alike_members(m, n, 125, "oauth"@);
        lemma_alike_members(m, n, 125, "identity"@);
        lemma_alike_deeper(m["oauth"@], accounts[k].oauth, 124, 127);
        lemma_alike_deeper(m["identity"@], accounts[k].identity, 124, 127);
        let all = stored_logins(items)->Some_0;
        assert forall|i: int| 0 <= i < accounts.len() implies alike_logins(
            #[trigger] all[i],
            accounts[i],
        ) by {
            if i < k {
                assert(all[i] == stored_logins(before)->Some_0[i]);
                assert(rest[i] == accounts[i]);
            }
        }
    }
}

/// Logins that were stored are read back as they were.
pub proof fn stored_logins_are_read_back(accounts: Seq<LoginValue>)
    ensures
        store_in(store_document(accounts)) == Some(accounts),
    decreases accounts.len(),
{
    lemma_logins_read_back(accounts);
}

proof fn lemma_logins_read_back(accounts: Seq<LoginValue>)
    ensures
        stored_logins(accounts.map_values(|a: LoginValue| login_document(a))) == Some(accounts),
    decreases accounts.len(),
{
    let items = accounts.map_values(|a: LoginValue| login_document(a));
    if accounts.len() > 0 {
        let before = accounts.drop_last();
        lemma_logins_read_back(before);
        assert(items.drop_last() =~= before.map_values(|a: LoginValue| login_document(a)));
        reveal_strlit("oauth");
        reveal_strlit("identity");
        assert("oauth"@.len() == 5 && "identity"@.len() == 8);
        assert(stored_login(items.last()) == Some(accounts.last()));
        assert(before.push(accounts.last()) =~= accounts);
    } else {
        assert(accounts =~= Seq::empty());
    }
}

/// What reading the store came to.
pub enum StoreRead {
    Contents(String),
    NotFound,
    Failed(String),
}

/// The saved logins.
#[derive(Debug)]
pub struct AccountManager {
    pub accounts: Vec<SavedLogin>,
}

impl View for AccountManager {
    type V = Seq<LoginValue>;

    open spec fn view(&self) -> Seq<LoginValue> {
        login_values(self.accounts@)
    }
}

/// What is shown of the saved logins, `active` being the id of the login in use.
pub open spec fn shown_logins(accounts: Seq<LoginValue>, active: Option<Seq<char>>) -> Seq<
    ClaudeAccountView,
> {
    accounts.map_values(|a: LoginValue| a.shown(a.id() == active, true))
}

/// The first saved login that cannot be shown.
pub open spec fn first_unshown(accounts: Seq<LoginValue>, i: int) -> Option<int>
    decreases accounts.len() - i,
{
    if i >= accounts.len() {
        None
    } else if accounts[i].missing_to_show() is Some {
        Some(i)
    } else {
        first_unshown(accounts, i + 1)
    }
}

/// The list of accounts, given the login in use where it is known. A login in use that is not
/// saved comes first.
pub open spec fn listed(accounts: Seq<LoginValue>, current: Option<LoginValue>) -> Seq<
    ClaudeAccountView,
> {
    match current {
        None => shown_logins(accounts, None),
        Some(login) => {
            let saved = shown_logins(accounts, login.id());
            if position_of(accounts, login.id()->Some_0, 0) is Some {
                saved
            } else {
                seq![login.shown(true, false)] + saved
            }
        },
    }
}

pub open spec fn claude_views(v: Seq<ClaudeAccount>) -> Seq<ClaudeAccountView> {
    v.map_values(|a: ClaudeAccount| a@)
}

/// Whether a login has the given id.
fn has_id(login: &SavedLogin, id: &str) -> (r: bool)
    ensures
        r == (login@.id() == Some(id@)),
{
    match login.id() {
        Ok(own) => same(own.as_str(), id),
        Err(_) => false,
    }
}

proof fn lemma_position(accounts: Seq<LoginValue>, id: Seq<char>, i: int)
    requires
        0 <= i,
    ensures
        match position_of(accounts, id, i) {
            Some(k) => i <= k < accounts.len() && accounts[k].id() == Some(id) && forall|j: int|
                i <= j < k ==> (#[trigger] accounts[j]).id() != Some(id),
            None => forall|j: int| i <= j < accounts.len() ==> (#[trigger] accounts[j]).id() != Some(id),
        },
    decreases accounts.len() - i,
{
    if i < accounts.len() && accounts[i].id() != Some(id) {
        lemma_position(accounts, id, i + 1);
    }
}

/// The parts of a login in a readable document are readable.
proof fn lemma_readable_item(v: JsonValue, i: int)
    requires
        is_readable(v),
        store_items(v) is Some,
        0 <= i < store_items(v)->Some_0.len(),
        stored_login(store_items(v)->Some_0[i]) is Some,
    ensures
        readable_to(stored_login(store_items(v)->Some_0[i])->Some_0.oauth, 124),
        readable_to(stored_login(store_items(v)->Some_0[i])->Some_0.identity, 124),
{
    let items = store_items(v)->Some_0;
    let list = JsonValue::Array(items);
    match v {
        JsonValue::Array(parts) => {
            assert(readable_to(parts[0], 126));
        },
        JsonValue::Object(m) => {
            lemma_readable_member(m, "accounts"@, 127);
        },
        _ => {},
    }
    assert(readable_to(list, 126));
    assert(list->Array_0[i] == items[i]);
    assert(readable_to(items[i], 125));
    match items[i] {
        JsonValue::Array(parts) => {
            assert(readable_to(parts[0], 124));
            assert(readable_to(parts[1], 124));
        },
        JsonValue::Object(m) => {
            lemma_readable_member(m, "oauth"@, 125);
            lemma_readable_member(m, "identity"@, 125);
        },
        _ => {},
    }
}

impl AccountManager {
    /// The saved logins, given what reading their file came to.
    pub fn load(file: &StoreRead) -> (r: Result<AccountManager, AccountError>)
        ensures
            match file {
                StoreRead::NotFound => r is Ok && r->Ok_0@ == Seq::<LoginValue>::empty(),
                StoreRead::Failed(e) => r is Err && r->Err_0@ == AccountErrorView::Other(e@),
                StoreRead::Contents(text) => match json_parsed(text@) {
                    Err(_) => r is Err && r->Err_0@ == AccountErrorView::UnreadableStore,
                    Ok(v) => match store_in(v) {
                        Some(accounts) => r is Ok && r->Ok_0@ == accounts,
                        None => r is Err && r->Err_0@ == AccountErrorView::UnreadableStore,
                    },
                },
            },
            r matches Ok(m) ==> readable_logins(m@),
    {
        match file {
            StoreRead::NotFound => {
                let m = AccountManager { accounts: Vec::new() };
                assert(m@ =~= Seq::empty());
                Ok(m)
            },
            StoreRead::Failed(e) => Err(AccountError::Other(e.clone())),
            StoreRead::Contents(text) => match parse_json(text.as_str()) {
                Err(_) => Err(AccountError::UnreadableStore),
                Ok(v) => match AccountManager::from_json(&v) {
                    Some(m) => Ok(m),
                    None => Err(AccountError::UnreadableStore),
                },
            },
        }
    }

    /// The logins in a stored document.
    pub fn from_json(v: &Json) -> (r: Option<AccountManager>)
        ensures
            r matches Some(m) ==> store_in(v@) == Some(m@),
            r is None <==> store_in(v@) is None,
            r matches Some(m) ==> (is_readable(v@) ==> readable_logins(m@)),
    {
        let items = match stored_items(v) {
            Some(items) => items,
            None => {
                return None;
            },
        };
        let mut accounts: Vec<SavedLogin> = Vec::new();
        let mut i: usize = 0;
        let ghost all = items_value(items@);
        proof {
            lemma_items(items@);
            assert(all.take(0) =~= Seq::empty());
            assert(login_values(accounts@) =~= Seq::empty());
        }
        while i < items.len()
            invariant
                i <= items@.len(),
                all == items_value(items@),
                all.len() == items@.len(),
                forall|j: int| 0 <= j < items@.len() ==> #[trigger] all[j] == items@[j]@,
                store_in(v@) == stored_logins(all),
                store_items(v@) == Some(all),
                stored_logins(all.take(i as int)) == Some(login_values(accounts@)),
                is_readable(v@) ==> readable_logins(login_values(accounts@)),
            decreases items@.len() - i,
        {
            assert(all.take(i + 1).drop_last() =~= all.take(i as int));
            assert(all.take(i + 1).last() == items@[i as int]@);
            match login_parts(&items[i]) {
                Some((o, d)) => {
                    let ghost before = accounts@;
                    accounts.push(SavedLogin { oauth: o.clone(), identity: d.clone() });
                    assert(login_values(accounts@) =~= login_values(before).push(
                        accounts@.last()@,
                    ));
                    proof {
                        if is_readable(v@) {
                            lemma_readable_item(v@, i as int);
                            let now = login_values(accounts@);
                            assert forall|j: int| 0 <= j < now.len() implies readable_to(
                                (#[trigger] now[j]).oauth,
                                124,
                            ) && readable_to(now[j].identity, 124) by {
                                if j < now.len() - 1 {
                                    assert(now[j] == login_values(before)[j]);
                                }
                            }
                        }
                    }
                },
                None => {
                    proof {
                        lemma_one_bad_item(all, i as int);
                    }
                    return None;
                },
            }
            i += 1;
        }
        assert(all.take(i as int) =~= all);
        Some(AccountManager { accounts })
    }

    /// The document in which the logins are stored.
    pub fn to_json(&self) -> (r: Json)
        ensures
            r@ == store_document(self@),
    {
        let mut items: Vec<Json> = Vec::new();
        let ghost all = self@.map_values(|a: LoginValue| login_document(a));
        let mut i: usize = 0;
        assert(all.take(0) =~= Seq::empty());
        while i < self.accounts.len()
            invariant
                i <= self.accounts@.len(),
                all == self@.map_values(|a: LoginValue| login_document(a)),
                items_value(items@) == all.take(i as int),
            decreases self.accounts@.len() - i,
        {
            let mut entry = JsonObject::new();
            entry.set("oauth", self.accounts[i].oauth.clone());
            entry.set("identity", self.accounts[i].identity.clone());
            let ghost before = items@;
            assert(self@[i as int] == self.accounts@[i as int]@);
            assert(Json::Object(entry)@ == login_document(self@[i as int]));
            items.push(Json::Object(entry));
            proof {
                assert(items@.last()@ == all[i as int]);
                assert(items@.drop_last() =~= before);
                assert(all.take(i + 1) =~= all.take(i as int).push(all[i as int]));
            }
            i += 1;
        }
        assert(all.take(i as int) =~= all);
        let mut store = JsonObject::new();
        store.set("accounts", Json::Array(items));
        Json::Object(store)
    }

    /// The text in which the logins are stored.
    pub fn save(&self) -> (r: String)
        ensures
            r@ == json_compact(store_document(self@)),
            is_readable(store_document(self@)) ==> reads_as(r@, store_document(self@)),
            is_readable(store_document(self@)) ==> stored_text_holds(r@, self@),
    {
        let text = write_json_compact(&self.to_json());
        proof {
            if is_readable(store_document(self@)) {
                lemma_alike_store(json_parsed(text@)->Ok_0, self@);
            }
        }
        text
    }

    /// The position of the first login with the given id.
    fn position(&self, id: &str) -> (r: Option<usize>)
        ensures
            r matches Some(i) ==> position_of(self@, id@, 0) == Some(i as int) && i
                < self.accounts@.len(),
            r is None <==> position_of(self@, id@, 0) is None,
    {
        let mut i: usize = 0;
        while i < self.accounts.len()
            invariant
                i <= self.accounts@.len(),
                position_of(self@, id@, 0) == position_of(self@, id@, i as int),
            decreases self.accounts@.len() - i,
        {
            if has_id(&self.accounts[i], id) {
                return Some(i);
            }
            i += 1;
        }
        None
    }

    /// The list of accounts, given the login in use where it is known.
    pub fn list_current(&self, current: Option<&SavedLogin>) -> (r: Result<
        Vec<ClaudeAccount>,
        AccountError,
    >)
        requires
            current matches Some(login) ==> login@.missing() is None,
        ensures
            ({
                let c = match current {
                    Some(login) => Some(login@),
                    None => None,
                };
                match first_unshown(self@, 0) {
                    Some(i) => r is Err && r->Err_0@ == AccountErrorView::MissingField(
                        self@[i].missing_to_show()->Some_0,
                    ),
                    None => r is Ok && claude_views(r->Ok_0@) == listed(self@, c),
                }
            }),
    {
        let active = match current {
            Some(login) => match login.id() {
                Ok(id) => Some(id),
                Err(_) => None,
            },
            None => None,
        };
        let ghost id = seen(active);
        let mut out: Vec<ClaudeAccount> = Vec::new();
        let ghost all = shown_logins(self@, id);
        let mut i: usize = 0;
        while i < self.accounts.len()
            invariant
                i <= self.accounts@.len(),
                id == seen(active),
                all == shown_logins(self@, id),
                first_unshown(self@, 0) == first_unshown(self@, i as int),
                forall|j: int| 0 <= j < i ==> (#[trigger] self@[j]).missing_to_show() is None,
                claude_views(out@) == all.take(i as int),
            decreases self.accounts@.len() - i,
        {
            let is_active = match &active {
                Some(id) => has_id(&self.accounts[i], id.as_str()),
                None => false,
            };
            match self.accounts[i].summary(is_active, true) {
                Ok(a) => {
                    let ghost before = out@;
                    out.push(a);
                    assert(self@[i as int].id() is Some);
                    assert(a@ == all[i as int]);
                    assert(claude_views(out@) =~= claude_views(before).push(a@));
                    assert(all.take(i + 1) =~= all.take(i as int).push(all[i as int]));
                },
                Err(e) => {
                    return Err(e);
                },
            }
            i += 1;
        }
        assert(all.take(i as int) =~= all);
        if let Some(login) = current {
            let known = match &active {
                Some(id) => self.position(id.as_str()).is_some(),
                None => false,
            };
            if !known {
                match login.summary(true, false) {
                    Ok(a) => {
                        let ghost before = out@;
                        out.insert(0, a);
                        assert(claude_views(out@) =~= seq![a@] + claude_views(before));
                    },
                    Err(e) => {
                        return Err(e);
                    },
                }
            }
        }
        Ok(out)
    }

    /// The list of accounts. Without consent the files of the login in use are not looked at,
    /// and which account is in use stays unknown.
    pub fn list_with_consent(
        &self,
        consent: bool,
        credentials: &BytesRead,
        config: &BytesRead,
    ) -> (r: Result<Vec<ClaudeAccount>, AccountError>)
        ensures
            ({
                let current = if consent {
                    login_in(*credentials, *config)
                } else {
                    Ok(None)
                };
                match current {
                    Err(e) => r is Err && r->Err_0@ == e,
                    Ok(c) => match first_unshown(self@, 0) {
                        Some(i) => r is Err && r->Err_0@ == AccountErrorView::MissingField(
                            self@[i].missing_to_show()->Some_0,
                        ),
                        None => r is Ok && claude_views(r->Ok_0@) == listed(self@, c),
                    },
                }
            }),
    {
        if !consent {
            return self.list_current(None);
        }
        match read_login(credentials, config) {
            Err(e) => Err(e),
            Ok(None) => self.list_current(None),
            Ok(Some(login)) => self.list_current(Some(&login)),
        }
    }

    /// The list of accounts, the user having consented to a look at the login in use.
    pub fn list(&self, credentials: &BytesRead, config: &BytesRead) -> (r: Result<
        Vec<ClaudeAccount>,
        AccountError,
    >)
        ensures
            match login_in(*credentials, *config) {
                Err(e) => r is Err && r->Err_0@ == e,
                Ok(c) => match first_unshown(self@, 0) {
                    Some(i) => r is Err && r->Err_0@ == AccountErrorView::MissingField(
                        self@[i].missing_to_show()->Some_0,
                    ),
                    None => r is Ok && claude_views(r->Ok_0@) == listed(self@, c),
                },
            },
    {
        self.list_with_consent(true, credentials, config)
    }

    /// Puts a complete login among the saved ones.
    fn upsert(&mut self, login: SavedLogin)
        requires
            login@.id() is Some,
        ensures
            final(self)@ == upserted(old(self)@, login@),
    {
        let id = match login.id() {
            Ok(id) => id,
            Err(_) => {
                return;
            },
        };
        let ghost before = self@;
        match self.position(id.as_str()) {
            Some(i) => {
                self.accounts.set(i, login);
                assert(self@ =~= before.update(i as int, login@));
            },
            None => {
                self.accounts.push(login);
                assert(self@ =~= before.push(login@));
            },
        }
    }

    /// Saves a login. An incomplete one is refused and changes nothing.
    pub fn import(&mut self, login: SavedLogin) -> (r: Result<(), AccountError>)
        ensures
            r is Ok <==> login@.missing() is None,
            r is Ok ==> final(self)@ == upserted(old(self)@, login@),
            r matches Err(e) ==> *final(self) == *old(self) && e@ == AccountErrorView::MissingField(
                login@.missing()->Some_0,
            ),
    {
        match login.validate() {
            Err(e) => Err(e),
            Ok(()) => {
                self.upsert(login);
                Ok(())
            },
        }
    }

    /// Saves the login in use.
    pub fn save_current(&mut self, credentials: &BytesRead, config: &BytesRead) -> (r: Result<
        (),
        AccountError,
    >)
        ensures
            match login_in(*credentials, *config) {
                Err(e) => r is Err && r->Err_0@ == e && *final(self) == *old(self),
                Ok(None) => r is Err && r->Err_0@
                    == AccountErrorView::NoSubscriptionLogin
                    && *final(self) == *old(self),
                Ok(Some(login)) => r is Ok && final(self)@ == upserted(old(self)@, login),
            },
    {
        match read_login(credentials, config) {
            Err(e) => Err(e),
            Ok(None) => Err(AccountError::NoSubscriptionLogin),
            Ok(Some(login)) => self.import(login),
        }
    }

    /// Forgets the logins with the given id.
    pub fn remove(&mut self, id: &str)
        ensures
            final(self)@ == without(old(self)@, id@),
    {
        let mut kept: Vec<SavedLogin> = Vec::new();
        let ghost all = self@;
        let mut i: usize = 0;
        assert(all.take(0) =~= Seq::empty());
        assert(login_values(kept@) =~= Seq::empty());
        while i < self.accounts.len()
            invariant
                i <= self.accounts@.len(),
                all == self@,
                login_values(kept@) == without(all.take(i as int), id@),
            decreases self.accounts@.len() - i,
        {
            assert(all.take(i + 1).drop_last() =~= all.take(i as int));
            if !has_id(&self.accounts[i], id) {
                let ghost before = kept@;
                kept.push(self.accounts[i].clone());
                assert(login_values(kept@) =~= login_values(before).push(all[i as int]));
            }
            i += 1;
        }
        assert(all.take(i as int) =~= all);
        self.accounts = kept;
    }
}

proof fn lemma_one_bad_item(items: Seq<JsonValue>, i: int)
    requires
        0 <= i < items.len(),
        stored_login(items[i]) is None,
    ensures
        stored_logins(items) is None,
    decreases items.len(),
{
    if i < items.len() - 1 {
        lemma_one_bad_item(items.drop_last(), i);
    }
}

/// What a switch comes to.
pub enum SwitchView {
    /// It is refused, and the user is told why.
    Refused(AccountErrorView),
    /// The account is in use already.
    NoChange,
    /// The saved logins become `accounts` and the two files are written.
    Write {
        save_store: bool,
        accounts: Seq<LoginValue>,
        old_credentials: Map<Seq<char>, JsonValue>,
        credentials: Map<Seq<char>, JsonValue>,
        config: Map<Seq<char>, JsonValue>,
    },
}

/// What a switch to the saved login with the given id comes to. The login in use is saved
/// first, with the tokens that it has by then.
pub open spec fn switched(
    accounts: Seq<LoginValue>,
    id: Seq<char>,
    credentials: BytesRead,
    config: BytesRead,
) -> SwitchView {
    match position_of(accounts, id, 0) {
        None => SwitchView::Refused(AccountErrorView::AccountNotFound),
        Some(i) => {
            let target = accounts[i];
            if target.missing() is Some {
                SwitchView::Refused(AccountErrorView::MissingField(target.missing()->Some_0))
            } else {
                match login_in(credentials, config) {
                    Err(e) => SwitchView::Refused(e),
                    Ok(current) => if current is Some && current->Some_0.id() == Some(id) {
                        SwitchView::NoChange
                    } else {
                        match (object_in(credentials), object_in(config)) {
                            (Err(e), _) => SwitchView::Refused(e),
                            (Ok(_), Err(e)) => SwitchView::Refused(e),
                            (Ok(c), Ok(g)) => SwitchView::Write {
                                save_store: current is Some,
                                accounts: match current {
                                    Some(login) => upserted(accounts, login),
                                    None => accounts,
                                },
                                old_credentials: c,
                                credentials: c.insert("claudeAiOauth"@, target.oauth),
                                config: g.insert("oauthAccount"@, target.identity),
                            },
                        }
                    },
                }
            }
        },
    }
}

/// What has to be done for a switch.
pub enum SwitchPlan {
    NoChange,
    Write {
        /// The saved logins have changed and are to be stored before anything else.
        save_store: bool,
        /// What the credentials file holds now, to be put back if the switch fails halfway.
        old_credentials: JsonObject,
        credentials: JsonObject,
        config: JsonObject,
    },
}

impl AccountManager {
    /// Prepares a switch to the saved login with the given id.
    pub fn switch(&mut self, id: &str, credentials: &BytesRead, config: &BytesRead) -> (r: Result<
        SwitchPlan,
        AccountError,
    >)
        ensures
            match switched(old(self)@, id@, *credentials, *config) {
                SwitchView::Refused(e) => r is Err && r->Err_0@ == e && *final(self) == *old(self),
                SwitchView::NoChange => r is Ok && r->Ok_0 is NoChange && *final(self) == *old(
                    self,
                ),
                SwitchView::Write { save_store, accounts, old_credentials, credentials, config } => {
                    &&& r matches Ok(
                        SwitchPlan::Write {
                            save_store: s,
                            old_credentials: o,
                            credentials: c,
                            config: g,
                        },
                    )
                    &&& s == save_store
                    &&& o@ == old_credentials
                    &&& c@ == credentials
                    &&& g@ == config
                    &&& final(self)@ == accounts
                    &&& is_readable(JsonValue::Object(o@))
                    &&& readable_logins(old(self)@) ==> is_readable(JsonValue::Object(c@))
                        && is_readable(JsonValue::Object(g@))
                },
            },
    {
        let target = match self.position(id) {
            Some(i) => self.accounts[i].clone(),
            None => {
                return Err(AccountError::AccountNotFound);
            },
        };
        if let Err(e) = target.validate() {
            return Err(e);
        }
        let current = match read_login(credentials, config) {
            Ok(current) => current,
            Err(e) => {
                return Err(e);
            },
        };
        if let Some(login) = &current {
            if has_id(login, id) {
                return Ok(SwitchPlan::NoChange);
            }
        }
        let old_credentials = match read_object(credentials) {
            Ok(o) => o,
            Err(e) => {
                return Err(e);
            },
        };
        let mut new_config = match read_object(config) {
            Ok(o) => o,
            Err(e) => {
                return Err(e);
            },
        };
        let save_store = current.is_some();
        if let Some(login) = current {
            self.upsert(login);
        }
        let mut new_credentials = old_credentials.clone();
        proof {
            if readable_logins(old(self)@) {
                let chosen = old(self)@[position_of(old(self)@, id@, 0)->Some_0];
                assert(target@ == chosen);
                lemma_readable_deeper(target.oauth@, 124, 126);
                lemma_readable_deeper(target.identity@, 124, 126);
                lemma_readable_insert(new_credentials@, "claudeAiOauth"@, target.oauth@, 127);
                lemma_readable_insert(new_config@, "oauthAccount"@, target.identity@, 127);
            }
        }
        new_credentials.set("claudeAiOauth", target.oauth);
        new_config.set("oauthAccount", target.identity);
        Ok(
            SwitchPlan::Write {
                save_store,
                old_credentials,
                credentials: new_credentials,
                config: new_config,
            },
        )
    }
}

/// The text in which a credentials or configuration file is written.
pub fn document_text(object: &JsonObject) -> (r: String)
    ensures
        r@ == json_pretty(JsonValue::Object(object@)),
        is_readable(JsonValue::Object(object@)) ==> reads_as(r@, JsonValue::Object(object@)),
{
    write_json_pretty(&Json::Object(object.clone()))
}

/// After a switch the files say that the chosen account is in use: where the two documents of
/// the switch were written as texts that are read back, the login in the files is the saved one,
/// but for the values of doubles in it.
pub proof fn switched_login_is_read_back(
    accounts: Seq<LoginValue>,
    id: Seq<char>,
    credentials: BytesRead,
    config: BytesRead,
    credentials_text: Seq<char>,
    config_text: Seq<char>,
    new_credentials: Vec<u8>,
    new_config: Vec<u8>,
)
    requires
        switched(accounts, id, credentials, config) is Write,
        reads_as(
            credentials_text,
            JsonValue::Object(switched(accounts, id, credentials, config)->credentials),
        ),
        reads_as(
            config_text,
            JsonValue::Object(switched(accounts, id, credentials, config)->config),
        ),
        new_credentials@ == encode_utf8(credentials_text),
        new_config@ == encode_utf8(config_text),
    ensures
        ({
            let found = login_in(
                BytesRead::Contents(new_credentials),
                BytesRead::Contents(new_config),
            );
            let target = accounts[position_of(accounts, id, 0)->Some_0];
            &&& found is Ok
            &&& found->Ok_0 is Some
            &&& alike_logins(found->Ok_0->Some_0, target)
            &&& found->Ok_0->Some_0.id() == Some(id)
            &&& target.id() == Some(id)
        }),
{
    switching_moves_only_the_login(accounts, id, credentials, config);
    let w = switched(accounts, id, credentials, config);
    let target = accounts[position_of(accounts, id, 0)->Some_0];
    let c = json_parsed(credentials_text)->Ok_0->Object_0;
    let g = json_parsed(config_text)->Ok_0->Object_0;
    lemma_alike_members(c, w->credentials, 127, "claudeAiOauth"@);
    lemma_alike_members(g, w->config, 127, "oauthAccount"@);
    let found = LoginValue { oauth: c["claudeAiOauth"@], identity: g["oauthAccount"@] };
    lemma_alike_deeper(found.oauth, target.oauth, 126, 127);
    lemma_alike_deeper(found.identity, target.identity, 126, 127);
    doubles_do_not_change_a_login(found, target);
    assert(required(target.oauth, "accessToken"@) is Some);
}

/// No two logins have one id.
pub open spec fn distinct_ids(accounts: Seq<LoginValue>) -> bool {
    forall|i: int, j: int|
        #![trigger accounts[i], accounts[j]]
        0 <= i < j < accounts.len() && accounts[i].id() is Some ==> accounts[i].id()
            != accounts[j].id()
}

/// A saved login is there afterwards under its id. Every other login stays where it was, and
/// no id comes to be there twice.
pub proof fn saving_keeps_the_others(accounts: Seq<LoginValue>, login: LoginValue)
    requires
        login.id() is Some,
    ensures
        ({
            let after = upserted(accounts, login);
            let id = login.id()->Some_0;
            &&& position_of(after, id, 0) matches Some(i) && after[i] == login
            &&& after.len() == accounts.len() || after.len() == accounts.len() + 1
            &&& forall|j: int|
                0 <= j < accounts.len() && position_of(accounts, id, 0) != Some(j)
                    ==> #[trigger] after[j] == accounts[j]
            &&& distinct_ids(accounts) ==> distinct_ids(after)
        }),
{
    let id = login.id()->Some_0;
    let after = upserted(accounts, login);
    lemma_position(accounts, id, 0);
    lemma_position(after, id, 0);
    match position_of(accounts, id, 0) {
        Some(i) => {
            assert(after[i] == login);
            let k = position_of(after, id, 0)->Some_0;
            if k < i {
                assert(after[k] == accounts[k]);
            }
            if distinct_ids(accounts) {
                assert forall|a: int, b: int|
                    #![trigger after[a], after[b]]
                    0 <= a < b < after.len() && after[a].id() is Some implies after[a].id()
                    != after[b].id() by {
                    assert(accounts[a].id() is Some ==> accounts[a].id() != accounts[b].id());
                }
            }
        },
        None => {
            let n = accounts.len() as int;
            assert(after[n] == login);
            let k = position_of(after, id, 0)->Some_0;
            if k < n {
                assert(after[k] == accounts[k]);
            }
            if distinct_ids(accounts) {
                assert forall|a: int, b: int|
                    #![trigger after[a], after[b]]
                    0 <= a < b < after.len() && after[a].id() is Some implies after[a].id()
                    != after[b].id() by {
                    assert(after[a] == accounts[a]);
                    if b < n {
                        assert(after[b] == accounts[b]);
                    }
                }
            }
        },
    }
}

/// Saving a login twice is saving it once.
pub proof fn saving_twice_is_saving_once(accounts: Seq<LoginValue>, login: LoginValue)
    requires
        login.id() is Some,
    ensures
        upserted(upserted(accounts, login), login) == upserted(accounts, login),
{
    saving_keeps_the_others(accounts, login);
    let after = upserted(accounts, login);
    let i = position_of(after, login.id()->Some_0, 0)->Some_0;
    lemma_position(after, login.id()->Some_0, 0);
    assert(after.update(i, login) =~= after);
}

/// A removed login is gone, every other one is still there, and nothing is added.
pub proof fn removing_forgets_one_id(accounts: Seq<LoginValue>, id: Seq<char>, login: LoginValue)
    ensures
        without(accounts, id).len() <= accounts.len(),
        without(accounts, id).contains(login) <==> accounts.contains(login) && login.id() != Some(
            id,
        ),
    decreases accounts.len(),
{
    if accounts.len() > 0 {
        let before = accounts.drop_last();
        let rest = without(before, id);
        removing_forgets_one_id(before, id, login);
        assert(accounts =~= before.push(accounts.last()));
        if before.contains(login) {
            let k = before.index_of(login);
            assert(accounts[k] == login);
        }
        if accounts.last() == login {
            assert(accounts[accounts.len() - 1] == login);
        }
        if accounts.contains(login) && accounts.last() != login {
            let k = accounts.index_of(login);
            assert(before[k] == login);
        }
        if accounts.last().id() != Some(id) {
            let after = rest.push(accounts.last());
            if rest.contains(login) {
                let k = rest.index_of(login);
                assert(after[k] == login);
            }
            if accounts.last() == login {
                assert(after[rest.len() as int] == login);
            }
            if after.contains(login) && accounts.last() != login {
                let k = after.index_of(login);
                assert(rest[k] == login);
            }
        }
    }
}

/// A switch writes the chosen login and nothing else: in the credentials only
/// `claudeAiOauth` changes, in the configuration only `oauthAccount`, and the two files then
/// hold exactly the saved login, complete and under the id that was asked for.
pub proof fn switching_moves_only_the_login(
    accounts: Seq<LoginValue>,
    id: Seq<char>,
    credentials: BytesRead,
    config: BytesRead,
)
    requires
        switched(accounts, id, credentials, config) is Write,
    ensures
        ({
            let w = switched(accounts, id, credentials, config);
            let old_config = object_in(config)->Ok_0;
            let target = accounts[position_of(accounts, id, 0)->Some_0];
            &&& forall|k: Seq<char>|
                k != "claudeAiOauth"@ ==> #[trigger] member(w->credentials, k) == member(
                    w->old_credentials,
                    k,
                )
            &&& forall|k: Seq<char>|
                k != "oauthAccount"@ ==> #[trigger] member(w->config, k) == member(old_config, k)
            &&& w->old_credentials == object_in(credentials)->Ok_0
            &&& login_of(w->credentials, w->config) == Some(target)
            &&& target.missing() is None
            &&& target.id() == Some(id)
        }),
{
    lemma_position(accounts, id, 0);
}

/// A switch loses no login: the one that was in use is saved with the tokens that it had, and
/// the others stay saved as they were.
pub proof fn switching_saves_the_outgoing_login(
    accounts: Seq<LoginValue>,
    id: Seq<char>,
    credentials: BytesRead,
    config: BytesRead,
    current: LoginValue,
)
    requires
        switched(accounts, id, credentials, config) is Write,
        login_in(credentials, config) == Ok::<Option<LoginValue>, AccountErrorView>(Some(current)),
    ensures
        ({
            let w = switched(accounts, id, credentials, config);
            let own = current.id()->Some_0;
            &&& w->save_store
            &&& position_of(w->accounts, own, 0) matches Some(i) && w->accounts[i] == current
            &&& forall|j: int|
                0 <= j < accounts.len() && position_of(accounts, own, 0) != Some(j)
                    ==> #[trigger] w->accounts[j] == accounts[j]
        }),
{
    saving_keeps_the_others(accounts, current);
}

/// Choosing the account that is in use changes nothing.
pub proof fn switching_to_the_active_account_changes_nothing(
    accounts: Seq<LoginValue>,
    credentials: BytesRead,
    config: BytesRead,
    current: LoginValue,
)
    requires
        login_in(credentials, config) == Ok::<Option<LoginValue>, AccountErrorView>(Some(current)),
        position_of(accounts, current.id()->Some_0, 0) matches Some(i)
            && accounts[i].missing() is None,
    ensures
        switched(accounts, current.id()->Some_0, credentials, config) is NoChange,
{
}

/// Without a known login in use no account is shown as active, and every saved one is shown
/// as saved.
pub proof fn unknown_activity_marks_nothing_active(accounts: Seq<LoginValue>)
    requires
        first_unshown(accounts, 0) is None,
    ensures
        listed(accounts, None).len() == accounts.len(),
        forall|i: int|
            0 <= i < accounts.len() ==> !(#[trigger] listed(accounts, None)[i]).is_active && listed(
                accounts,
                None,
            )[i].is_saved,
{
    lemma_all_shown(accounts, 0);
    assert forall|i: int| 0 <= i < accounts.len() implies !(#[trigger] listed(
        accounts,
        None,
    )[i]).is_active by {
        assert(accounts[i].missing_to_show() is None);
    }
}

proof fn lemma_all_shown(accounts: Seq<LoginValue>, i: int)
    requires
        0 <= i,
        first_unshown(accounts, i) is None,
    ensures
        forall|j: int| i <= j < accounts.len() ==> (#[trigger] accounts[j]).missing_to_show() is None,
    decreases accounts.len() - i,
{
    if i < accounts.len() {
        lemma_all_shown(accounts, i + 1);
    }
}

/// Where no id is saved twice, the login in use is shown as active, and no other is.
pub proof fn one_account_is_active(accounts: Seq<LoginValue>, current: LoginValue)
    requires
        current.missing() is None,
        first_unshown(accounts, 0) is None,
        distinct_ids(accounts),
    ensures
        ({
            let list = listed(accounts, Some(current));
            &&& exists|i: int|
                0 <= i < list.len() && (#[trigger] list[i]).is_active && list[i].id
                    == current.id()->Some_0
            &&& forall|i: int, j: int|
                0 <= i < list.len() && 0 <= j < list.len() && (#[trigger] list[i]).is_active && (
                #[trigger] list[j]).is_active ==> i == j
        }),
{
    let id = current.id()->Some_0;
    let list = listed(accounts, Some(current));
    let saved = shown_logins(accounts, current.id());
    lemma_position(accounts, id, 0);
    lemma_all_shown(accounts, 0);
    match position_of(accounts, id, 0) {
        Some(k) => {
            assert(list[k].is_active);
            assert(list[k].id == id);
            assert forall|i: int, j: int|
                0 <= i < list.len() && 0 <= j < list.len() && (#[trigger] list[i]).is_active && (
                #[trigger] list[j]).is_active implies i == j by {
                assert(accounts[i].id() == accounts[j].id());
            }
        },
        None => {
            assert(list[0].is_active && list[0].id == id);
            assert forall|i: int| 0 < i < list.len() implies !(#[trigger] list[i]).is_active by {
                assert(list[i] == saved[i - 1]);
                assert(accounts[i - 1].id() != Some(id));
            }
        },
    }
}

/// How far the writing of the two files has come.
#[derive(Clone, Copy, Debug, PartialEq, Eq, Structural)]
pub enum WriteStage {
    /// The credentials are written next to their place.
    StageCredentials,
    /// The configuration is written next to its place.
    StageConfig,
    /// The credentials are put in their place.
    CommitCredentials,
    /// The configuration is put in its place.
    CommitConfig,
    /// The old credentials are put back.
    RestoreCredentials,
}

/// What follows on a stage.
#[derive(Clone, Copy, Debug, PartialEq, Eq, Structural)]
pub enum WriteNext {
    Go(WriteStage),
    /// Both files are in place.
    Done,
    /// The stage's error is reported, after the staged files named here are removed.
    Fail { drop_credentials: bool, drop_config: bool },
    /// The old credentials are back; the error of the configuration is reported.
    FailRestored,
    /// The old credentials could not be put back.
    FailHalfway,
}

/// What follows on a stage that succeeded or failed.
pub open spec fn after_stage(stage: WriteStage, ok: bool) -> WriteNext {
    match stage {
        WriteStage::StageCredentials => if ok {
            WriteNext::Go(WriteStage::StageConfig)
        } else {
            WriteNext::Fail { drop_credentials: false, drop_config: false }
        },
        WriteStage::StageConfig => if ok {
            WriteNext::Go(WriteStage::CommitCredentials)
        } else {
            WriteNext::Fail { drop_credentials: true, drop_config: false }
        },
        WriteStage::CommitCredentials => if ok {
            WriteNext::Go(WriteStage::CommitConfig)
        } else {
            WriteNext::Fail { drop_credentials: true, drop_config: true }
        },
        WriteStage::CommitConfig => if ok {
            WriteNext::Done
        } else {
            WriteNext::Go(WriteStage::RestoreCredentials)
        },
        WriteStage::RestoreCredentials => if ok {
            WriteNext::FailRestored
        } else {
            WriteNext::FailHalfway
        },
    }
}

/// What follows on a stage that succeeded or failed.
pub fn write_next(stage: WriteStage, ok: bool) -> (r: WriteNext)
    ensures
        r == after_stage(stage, ok),
{
    match stage {
        WriteStage::StageCredentials => if ok {
            WriteNext::Go(WriteStage::StageConfig)
        } else {
            WriteNext::Fail { drop_credentials: false, drop_config: false }
        },
        WriteStage::StageConfig => if ok {
            WriteNext::Go(WriteStage::CommitCredentials)
        } else {
            WriteNext::Fail { drop_credentials: true, drop_config: false }
        },
        WriteStage::CommitCredentials => if ok {
            WriteNext::Go(WriteStage::CommitConfig)
        } else {
            WriteNext::Fail { drop_credentials: true, drop_config: true }
        },
        WriteStage::CommitConfig => if ok {
            WriteNext::Done
        } else {
            WriteNext::Go(WriteStage::RestoreCredentials)
        },
        WriteStage::RestoreCredentials => if ok {
            WriteNext::FailRestored
        } else {
            WriteNext::FailHalfway
        },
    }
}

/// What a switch that failed at the configuration comes to.
pub fn identity_failure(restored: bool, error: &str) -> (r: AccountError)
    ensures
        r@ == (if restored {
            AccountErrorView::SwitchUndone(error@)
        } else {
            AccountErrorView::SwitchHalfway
        }),
{
    if restored {
        AccountError::SwitchUndone(error.to_owned())
    } else {
        AccountError::SwitchHalfway
    }
}

/// Which of the two files hold the new login when a stage begins: the credentials, the
/// configuration.
pub open spec fn in_place(stage: WriteStage) -> (bool, bool) {
    match stage {
        WriteStage::StageCredentials => (false, false),
        WriteStage::StageConfig => (false, false),
        WriteStage::CommitCredentials => (false, false),
        WriteStage::CommitConfig => (true, false),
        WriteStage::RestoreCredentials => (true, false),
    }
}

/// Which of the two files hold the new login once a stage has run: a stage that failed leaves
/// them as they were.
pub open spec fn in_place_after(stage: WriteStage, ok: bool) -> (bool, bool) {
    match stage {
        WriteStage::CommitCredentials => if ok {
            (true, false)
        } else {
            in_place(stage)
        },
        WriteStage::CommitConfig => if ok {
            (true, true)
        } else {
            in_place(stage)
        },
        WriteStage::RestoreCredentials => if ok {
            (false, false)
        } else {
            in_place(stage)
        },
        _ => in_place(stage),
    }
}

/// A switch changes both files or neither, but for one case, which is told apart: the new
/// credentials are in place, and neither could the new configuration be put there nor the old
/// credentials be put back. Neither file is touched before both are staged.
pub proof fn failed_switch_is_undone(stage: WriteStage, ok: bool)
    ensures
        match after_stage(stage, ok) {
            WriteNext::Go(next) => in_place_after(stage, ok) == in_place(next),
            WriteNext::Done => in_place_after(stage, ok) == (true, true),
            WriteNext::Fail { .. } => in_place_after(stage, ok) == (false, false),
            WriteNext::FailRestored => in_place_after(stage, ok) == (false, false),
            WriteNext::FailHalfway => stage == WriteStage::RestoreCredentials && !ok,
        },
        in_place(WriteStage::StageCredentials) == (false, false),
        after_stage(stage, ok) == WriteNext::Go(WriteStage::CommitCredentials) ==> stage
            == WriteStage::StageConfig && ok,
        after_stage(stage, ok) == WriteNext::Go(WriteStage::StageConfig) ==> stage
            == WriteStage::StageCredentials && ok,
        after_stage(stage, ok) == WriteNext::Go(WriteStage::RestoreCredentials) ==> stage
            == WriteStage::CommitConfig && !ok,
{
}

/// The directory of the configuration: the one that the environment names, which has to be
/// absolute, else the one in the home directory.
pub fn config_dir(
    tool: &Tool,
    named: Option<&str>,
    named_is_absolute: bool,
    home: Option<&str>,
    separator: char,
) -> (r: Result<String, AccountError>)
    ensures
        ({
            let given = named matches Some(dir) && dir@.len() > 0;
            &&& given && named_is_absolute ==> r is Ok && r->Ok_0@ == named->Some_0@
            &&& given && !named_is_absolute ==> r is Err && r->Err_0@
                == AccountErrorView::Other("CLAUDE_CONFIG_DIR must be an absolute path."@)
            &&& !given && home is Some ==> r is Ok && r->Ok_0@ == path_with(
                home->Some_0@,
                tool.directory_name(),
                separator,
            )
            &&& !given && home is None ==> r is Err && r->Err_0@ == AccountErrorView::Other("Home directory not found."@)
        }),
{
    if let Some(dir) = named {
        if !dir.is_empty() {
            if !named_is_absolute {
                return Err(AccountError::Other("CLAUDE_CONFIG_DIR must be an absolute path.".to_owned()));
            }
            return Ok(dir.to_owned());
        }
    }
    match home {
        Some(home) => Ok(join_path(home, tool.say_directory_name().as_str(), separator)),
        None => Err(AccountError::Other("Home directory not found.".to_owned())),
    }
}

/// The configuration file: in the directory that the environment names, else in the home
/// directory.
pub fn config_file(
    tool: &Tool,
    named: Option<&str>,
    config_dir: &str,
    home: Option<&str>,
    separator: char,
) -> (r: Result<String, AccountError>)
    ensures
        ({
            let given = named matches Some(dir) && dir@.len() > 0;
            &&& given ==> r is Ok && r->Ok_0@ == path_with(config_dir@, tool.config_name(), separator)
            &&& !given && home is Some ==> r is Ok && r->Ok_0@ == path_with(
                home->Some_0@,
                tool.config_name(),
                separator,
            )
            &&& !given && home is None ==> r is Err && r->Err_0@ == AccountErrorView::Other("Home directory not found."@)
        }),
{
    if let Some(dir) = named {
        if !dir.is_empty() {
            return Ok(join_path(config_dir, tool.say_config_name().as_str(), separator));
        }
    }
    match home {
        Some(home) => Ok(join_path(home, tool.say_config_name().as_str(), separator)),
        None => Err(AccountError::Other("Home directory not found.".to_owned())),
    }
}

/// A login is named by its account and its organization, with a colon between them; without either
/// it has no name.
pub proof fn a_login_is_named_by_account_and_organization(
    oauth: JsonValue,
    m: Map<Seq<char>, JsonValue>,
    account: Seq<char>,
    organization: Seq<char>,
)
    ensures
        ({
            let login = LoginValue { oauth, identity: JsonValue::Object(m) };
            &&& says(m, "accountUuid"@, JsonValue::Text(account)) && trimmed(account).len() > 0
                && says(m, "organizationUuid"@, JsonValue::Text(organization)) && trimmed(
                organization,
            ).len() > 0 ==> login.id() == Some(account + ":"@ + organization)
            &&& !m.dom().contains("accountUuid"@) ==> login.id() is None && login.missing() == Some(
                "accountUuid"@,
            )
            &&& says(m, "accountUuid"@, JsonValue::Text(account)) && trimmed(account).len() > 0
                && !m.dom().contains("organizationUuid"@) ==> login.id() is None && login.missing()
                == Some("organizationUuid"@)
            &&& says(m, "accountUuid"@, JsonValue::Text(account)) && trimmed(account).len() == 0
                ==> login.id() is None
        }),
        (LoginValue { oauth, identity: JsonValue::Null }).id() is None,
{
}

/// A login is complete where its identity names the account, the organization and the address, and
/// its credentials hold both tokens; it is then shown with what stands there.
pub proof fn a_complete_login_is_shown_as_it_stands(
    c: Map<Seq<char>, JsonValue>,
    m: Map<Seq<char>, JsonValue>,
    email: Seq<char>,
    t: Seq<char>,
    active: bool,
    saved: bool,
)
    ensures
        ({
            let login = LoginValue { oauth: JsonValue::Object(c), identity: JsonValue::Object(m) };
            let shown = login.shown(active, saved);
            &&& login.missing() is None ==> {
                &&& holds_text(m, "accountUuid"@)
                &&& holds_text(m, "organizationUuid"@)
                &&& holds_text(m, "emailAddress"@)
                &&& holds_text(c, "accessToken"@)
                &&& holds_text(c, "refreshToken"@)
            }
            &&& holds_text(m, "accountUuid"@) && holds_text(m, "organizationUuid"@) && holds_text(
                m,
                "emailAddress"@,
            ) && holds_text(c, "accessToken"@) && holds_text(c, "refreshToken"@)
                ==> login.missing() is None
            &&& holds_text(m, "accountUuid"@) && holds_text(m, "organizationUuid"@) && holds_text(
                m,
                "emailAddress"@,
            ) ==> login.missing_to_show() is None
            &&& !holds_text(m, "emailAddress"@) ==> login.missing_to_show() is Some
            &&& shown.is_active == active
            &&& shown.is_saved == saved
            &&& login.id() matches Some(id) ==> shown.id == id
            &&& says(m, "emailAddress"@, JsonValue::Text(email)) && trimmed(email).len() > 0
                ==> shown.email == email
            &&& says(m, "organizationName"@, JsonValue::Text(t)) ==> shown.organization == Some(t)
            &&& !m.dom().contains("organizationName"@) ==> shown.organization is None
            &&& says(c, "subscriptionType"@, JsonValue::Text(t)) ==> shown.plan == Some(t)
            &&& !c.dom().contains("subscriptionType"@) ==> shown.plan is None
        }),
{
}

/// Whether an object holds a text under a key that is not blank.
pub open spec fn holds_text(m: Map<Seq<char>, JsonValue>, key: Seq<char>) -> bool {
    m.dom().contains(key) && m[key] is Text && trimmed(m[key]->Text_0).len() > 0
}

/// The login in use is what stands under `claudeAiOauth` in the credentials and under `oauthAccount`
/// in the configuration; without credentials nobody is logged in.
pub proof fn the_login_in_use_is_that_of_the_files(
    c: Map<Seq<char>, JsonValue>,
    g: Map<Seq<char>, JsonValue>,
    oauth: JsonValue,
    identity: JsonValue,
)
    ensures
        !c.dom().contains("claudeAiOauth"@) ==> login_of(c, g) is None,
        says(c, "claudeAiOauth"@, JsonValue::Null) ==> login_of(c, g) is None,
        says(c, "claudeAiOauth"@, oauth) && oauth != JsonValue::Null && says(
            g,
            "oauthAccount"@,
            identity,
        ) ==> login_of(c, g) == Some(LoginValue { oauth, identity }),
        says(c, "claudeAiOauth"@, oauth) && oauth != JsonValue::Null && !g.dom().contains(
            "oauthAccount"@,
        ) ==> login_of(c, g) == Some(LoginValue { oauth, identity: JsonValue::Null }),
{
}

/// A file that is not there holds an empty object; one that cannot be read, or holds anything but
/// an object, is an error.
pub proof fn a_missing_file_is_an_empty_object(
    data: Vec<u8>,
    m: Map<Seq<char>, JsonValue>,
    e: String,
)
    ensures
        object_in(BytesRead::NotFound) == Ok::<Map<Seq<char>, JsonValue>, AccountErrorView>(
            Map::empty(),
        ),
        json_of_bytes(data@) == Some(JsonValue::Object(m)) ==> object_in(BytesRead::Contents(data))
            == Ok::<Map<Seq<char>, JsonValue>, AccountErrorView>(m),
        json_of_bytes(data@) is None ==> object_in(BytesRead::Contents(data)) is Err,
        json_of_bytes(data@) == Some(JsonValue::Null) ==> object_in(
            BytesRead::Contents(data),
        ) is Err,
        object_in(BytesRead::Failed(e)) is Err,
{
}

/// The login in use is found only where it is complete, and the configuration does not count where
/// there are no credentials.
pub proof fn only_complete_logins_are_in_use(credentials: BytesRead, config: BytesRead)
    ensures
        login_in(credentials, config) matches Ok(Some(login)) ==> login.missing() is None
            && object_in(credentials) is Ok && object_in(config) is Ok && login_of(
            object_in(credentials)->Ok_0,
            object_in(config)->Ok_0,
        ) == Some(login),
        credentials is NotFound ==> login_in(credentials, config) == Ok::<
            Option<LoginValue>,
            AccountErrorView,
        >(None),
        object_in(credentials) is Err ==> login_in(credentials, config) is Err,
{
}

/// A login is stored with its credentials under `oauth` and its identity under `identity`, in a list
/// under `accounts`, at the place that it has.
pub proof fn logins_are_stored_under_their_names(accounts: Seq<LoginValue>, i: int)
    requires
        0 <= i < accounts.len(),
    ensures
        ({
            let stored = store_document(accounts)->Object_0["accounts"@]->Array_0;
            &&& store_document(accounts) is Object
            &&& says(store_document(accounts)->Object_0, "accounts"@, JsonValue::Array(stored))
            &&& stored.len() == accounts.len()
            &&& stored[i] is Object
            &&& says(stored[i]->Object_0, "oauth"@, accounts[i].oauth)
            &&& says(stored[i]->Object_0, "identity"@, accounts[i].identity)
        }),
{
    reveal_strlit("oauth");
    reveal_strlit("identity");
    assert("oauth"@.len() == 5);
    assert("identity"@.len() == 8);
}

/// A stored list is read login by login, each at its place; one that is incomplete makes the whole
/// unreadable.
pub proof fn stored_lists_are_read_login_by_login(items: Seq<JsonValue>)
    ensures
        stored_logins(items) is Some <==> forall|i: int|
            0 <= i < items.len() ==> stored_login(#[trigger] items[i]) is Some,
        stored_logins(items) matches Some(logins) ==> logins.len() == items.len() && forall|i: int|
            0 <= i < items.len() ==> stored_login(#[trigger] items[i]) == Some(logins[i]),
    decreases items.len(),
{
    if items.len() > 0 {
        let front = items.drop_last();
        stored_lists_are_read_login_by_login(front);
        if let Some(logins) = stored_logins(items) {
            assert forall|i: int| 0 <= i < items.len() implies stored_login(#[trigger] items[i])
                == Some(logins[i]) by {
                if i < front.len() {
                    assert(front[i] == items[i]);
                }
            }
        } else if forall|i: int| 0 <= i < items.len() ==> stored_login(#[trigger] items[i]) is Some {
            assert forall|i: int| 0 <= i < front.len() implies stored_login(#[trigger] front[i]) is Some by {
                assert(items[i] == front[i]);
            }
            assert(stored_login(items[items.len() - 1]) is Some);
        }
    }
}

/// The list shows every saved login at its place, the one in use as active and no other; one in use
/// that is not saved stands before them, as such.
pub proof fn the_list_shows_every_login(
    accounts: Seq<LoginValue>,
    current: LoginValue,
    i: int,
)
    requires
        current.id() is Some,
        0 <= i < accounts.len(),
        accounts[i].id() is Some,
    ensures
        ({
            let list = listed(accounts, Some(current));
            let saved = position_of(accounts, current.id()->Some_0, 0) is Some;
            let at = if saved {
                i
            } else {
                i + 1
            };
            &&& list.len() == accounts.len() + (if saved {
                0int
            } else {
                1int
            })
            &&& list[at].id == accounts[i].id()->Some_0
            &&& list[at].is_saved
            &&& list[at].is_active <==> accounts[i].id() == current.id()
            &&& accounts[i].id() == current.id() ==> saved
            &&& !saved ==> list[0].is_active && !list[0].is_saved && list[0].id
                == current.id()->Some_0
        }),
{
    lemma_position(accounts, current.id()->Some_0, 0);
}

/// The place of a login is the first one with its id; none has that id where there is no such place.
pub proof fn a_login_is_found_at_its_first_place(accounts: Seq<LoginValue>, id: Seq<char>)
    ensures
        match position_of(accounts, id, 0) {
            Some(k) => 0 <= k < accounts.len() && accounts[k].id() == Some(id) && forall|j: int|
                0 <= j < k ==> (#[trigger] accounts[j]).id() != Some(id),
            None => forall|j: int|
                0 <= j < accounts.len() ==> (#[trigger] accounts[j]).id() != Some(id),
        },
{
    lemma_position(accounts, id, 0);
}

/// A switch goes ahead exactly where the account is saved and complete, the files can be read, and
/// another login, or none, is in use.
pub proof fn a_switch_goes_ahead_where_it_can(
    accounts: Seq<LoginValue>,
    id: Seq<char>,
    credentials: BytesRead,
    config: BytesRead,
)
    ensures
        ({
            let r = switched(accounts, id, credentials, config);
            let at = position_of(accounts, id, 0);
            &&& at is None ==> r == SwitchView::Refused(AccountErrorView::AccountNotFound)
            &&& at is Some && accounts[at->Some_0].missing() is Some ==> r is Refused
            &&& login_in(credentials, config) is Err ==> r is Refused
            &&& r is Write ==> at is Some && login_in(credentials, config) is Ok
            &&& at is Some && accounts[at->Some_0].missing() is None && object_in(
                credentials,
            ) is Ok && object_in(config) is Ok && login_in(credentials, config) == Ok::<
                Option<LoginValue>,
                AccountErrorView,
            >(None) ==> r is Write && !r->save_store && r->accounts == accounts
            &&& r is NoChange ==> login_in(credentials, config) is Ok && login_in(
                credentials,
                config,
            )->Ok_0 is Some && login_in(credentials, config)->Ok_0->Some_0.id() == Some(id)
        }),
{
}

/// The two files are written in this order: both beside their places, then the credentials, then the
/// configuration. What was staged is removed where a stage before the first move fails.
pub proof fn files_are_staged_before_they_are_moved()
    ensures
        after_stage(WriteStage::StageCredentials, true) == WriteNext::Go(WriteStage::StageConfig),
        after_stage(WriteStage::StageConfig, true) == WriteNext::Go(WriteStage::CommitCredentials),
        after_stage(WriteStage::CommitCredentials, true) == WriteNext::Go(WriteStage::CommitConfig),
        after_stage(WriteStage::CommitConfig, true) == WriteNext::Done,
        after_stage(WriteStage::CommitConfig, false) == WriteNext::Go(
            WriteStage::RestoreCredentials,
        ),
        after_stage(WriteStage::RestoreCredentials, true) == WriteNext::FailRestored,
        after_stage(WriteStage::RestoreCredentials, false) == WriteNext::FailHalfway,
        after_stage(WriteStage::StageConfig, false) == (WriteNext::Fail {
            drop_credentials: true,
            drop_config: false,
        }),
        after_stage(WriteStage::CommitCredentials, false) == (WriteNext::Fail {
            drop_credentials: true,
            drop_config: true,
        }),
{
}

/// A directory that the environment names is taken where it is absolute, and refused where it is
/// not; without one the directory in the home is taken.
pub proof fn a_named_directory_must_be_absolute(
    tool: &Tool,
    named: Option<&str>,
    named_is_absolute: bool,
    home: Option<&str>,
    separator: char,
    r: Result<String, AccountError>,
)
    requires
        call_ensures(config_dir, (tool, named, named_is_absolute, home, separator), r),
    ensures
        named matches Some(dir) ==> dir@.len() > 0 ==> (r is Ok <==> named_is_absolute),
        named matches Some(dir) ==> dir@.len() > 0 && named_is_absolute ==> r->Ok_0@ == dir@,
        named is None ==> (r is Ok <==> home is Some),
        named is None && home is Some ==> home->Some_0@.is_prefix_of(r->Ok_0@)
            && tool.directory_name().is_suffix_of(r->Ok_0@),
{
    if named is None && home is Some {
        a_path_leads_to_its_part(home->Some_0@, tool.directory_name(), separator);
    }
}

/// A switch that failed after the credentials were in place is told as undone only where they were
/// put back.
pub proof fn a_failed_switch_is_told_as_it_is(restored: bool, error: &str, r: AccountError)
    requires
        call_ensures(identity_failure, (restored, error), r),
    ensures
        r@ is SwitchUndone <==> restored,
        r@ is SwitchHalfway <==> !restored,
        restored ==> r@->SwitchUndone_0 == error@,
{
}

/// The part that a login lacks is named: the first of account, organization, address, access token
/// and refresh token that is not there.
pub proof fn the_first_missing_part_is_named(login: LoginValue)
    ensures
        ({
            let lacks = |o: JsonValue, key: Seq<char>| required(o, key) is None;
            &&& lacks(login.identity, "accountUuid"@) ==> login.missing() == Some("accountUuid"@)
            &&& !lacks(login.identity, "accountUuid"@) && lacks(
                login.identity,
                "organizationUuid"@,
            ) ==> login.missing() == Some("organizationUuid"@)
            &&& login.id() is Some && lacks(login.identity, "emailAddress"@) ==> login.missing()
                == Some("emailAddress"@) && login.missing_to_show() == Some("emailAddress"@)
            &&& login.missing_to_show() is None && lacks(login.oauth, "accessToken"@)
                ==> login.missing() == Some("accessToken"@)
            &&& login.missing_to_show() is None && !lacks(login.oauth, "accessToken"@) && lacks(
                login.oauth,
                "refreshToken"@,
            ) ==> login.missing() == Some("refreshToken"@)
        }),
{
}

/// Without consent the list of accounts does not depend on the files of the login in use, and no
/// account is shown as active.
pub proof fn without_consent_the_files_do_not_count(
    manager: &AccountManager,
    a: &BytesRead,
    b: &BytesRead,
    c: &BytesRead,
    d: &BytesRead,
    r: Result<Vec<ClaudeAccount>, AccountError>,
    s: Result<Vec<ClaudeAccount>, AccountError>,
)
    requires
        call_ensures(AccountManager::list_with_consent, (manager, false, a, b), r),
        call_ensures(AccountManager::list_with_consent, (manager, false, c, d), s),
    ensures
        r is Ok <==> s is Ok,
        r is Ok ==> claude_views(r->Ok_0@) == claude_views(s->Ok_0@),
        r is Ok ==> r->Ok_0@.len() == manager@.len() && forall|i: int|
            0 <= i < r->Ok_0@.len() ==> !(#[trigger] r->Ok_0@[i])@.is_active && r->Ok_0@[i]@.is_saved,
{
    if r is Ok {
        unknown_activity_marks_nothing_active(manager@);
        let list = claude_views(r->Ok_0@);
        assert(list.len() == r->Ok_0@.len());
        assert forall|i: int| 0 <= i < r->Ok_0@.len() implies !(
        #[trigger] r->Ok_0@[i])@.is_active && r->Ok_0@[i]@.is_saved by {
            assert(list[i] == r->Ok_0@[i]@);
        }
    }
}

/// With consent the list is the one for the login in use, and an error in its files is told.
pub proof fn with_consent_the_login_in_use_is_shown(
    manager: &AccountManager,
    credentials: &BytesRead,
    config: &BytesRead,
    r: Result<Vec<ClaudeAccount>, AccountError>,
    s: Result<Vec<ClaudeAccount>, AccountError>,
)
    requires
        call_ensures(AccountManager::list_with_consent, (manager, true, credentials, config), r),
        call_ensures(AccountManager::list, (manager, credentials, config), s),
    ensures
        login_in(*credentials, *config) is Err ==> r is Err && s is Err,
        login_in(*credentials, *config) matches Ok(current) ==> (r matches Ok(list) ==> claude_views(
            list@,
        ) == listed(manager@, current)),
        r is Ok <==> s is Ok,
        r is Ok ==> claude_views(r->Ok_0@) == claude_views(s->Ok_0@),
{
}

/// What is loaded are the logins that were stored; without a file there are none, and one that cannot
/// be read is an error rather than an empty list.
pub proof fn an_unreadable_store_is_no_empty_store(
    file: &StoreRead,
    r: Result<AccountManager, AccountError>,
)
    requires
        call_ensures(AccountManager::load, (file,), r),
    ensures
        *file is NotFound ==> r is Ok && r->Ok_0@.len() == 0,
        *file is Failed ==> r is Err,
        *file is Contents && json_parsed(file->Contents_0@) is Err ==> r is Err && r->Err_0@
            is UnreadableStore,
        r is Ok && *file is Contents ==> json_parsed(file->Contents_0@) is Ok && store_in(
            json_parsed(file->Contents_0@)->Ok_0,
        ) == Some(r->Ok_0@),
        forall|logins: Seq<LoginValue>|
            *file is Contents && json_parsed(file->Contents_0@) == Ok::<JsonValue, Seq<char>>(
                #[trigger] store_document(logins),
            ) ==> r is Ok && r->Ok_0@ == logins,
{
    assert forall|logins: Seq<LoginValue>|
        *file is Contents && json_parsed(file->Contents_0@) == Ok::<JsonValue, Seq<char>>(
            #[trigger] store_document(logins),
        ) implies r is Ok && r->Ok_0@ == logins by {
        stored_logins_are_read_back(logins);
    }
}

/// A login that is complete is saved and found under its id; one that is not is refused, and nothing
/// changes.
pub proof fn only_complete_logins_are_saved(login: SavedLogin, r: Result<(), AccountError>)
    ensures
        forall|manager: &mut AccountManager| #[trigger]
            call_ensures(AccountManager::import, (manager, login), r) ==> {
                &&& r is Ok <==> login@.missing() is None
                &&& r is Ok ==> position_of(final(manager)@, login@.id()->Some_0, 0) is Some
                    && final(manager)@[position_of(
                    final(manager)@,
                    login@.id()->Some_0,
                    0,
                )->Some_0] == login@
                &&& r is Err ==> *final(manager) == *manager
            },
{
    assert forall|manager: &mut AccountManager| #[trigger]
        call_ensures(AccountManager::import, (manager, login), r) && r is Ok implies position_of(
        final(manager)@,
        login@.id()->Some_0,
        0,
    ) is Some && final(manager)@[position_of(final(manager)@, login@.id()->Some_0, 0)->Some_0]
        == login@ by {
        saving_keeps_the_others(manager@, login@);
    }
}

/// The configuration file lies in the directory that the environment names, and in the home where it
/// names none.
pub proof fn the_configuration_lies_where_it_is_named(
    tool: &Tool,
    named: Option<&str>,
    dir: &str,
    home: Option<&str>,
    separator: char,
    r: Result<String, AccountError>,
)
    requires
        call_ensures(config_file, (tool, named, dir, home, separator), r),
    ensures
        named matches Some(d) ==> d@.len() > 0 ==> r is Ok && dir@.is_prefix_of(r->Ok_0@),
        named is None ==> (r is Ok <==> home is Some),
        named is None && home is Some ==> home->Some_0@.is_prefix_of(r->Ok_0@),
        r is Ok ==> tool.config_name().is_suffix_of(r->Ok_0@),
{
    a_path_leads_to_its_part(dir@, tool.config_name(), separator);
    if let Some(h) = home {
        a_path_leads_to_its_part(h@, tool.config_name(), separator);
    }
}

} // verus!
