//! Credentials, identities and usage of Codex accounts.

use vstd::prelude::*;
use vstd::string::{StrSliceExecFns, StringExecFns};
use vstd::utf8::encode_utf8;
use crate::codex_accounts::models::{dated, format_datetime, parse_datetime, role_of, AccountUsageSnapshot, CreditsBalanceSnapshot, SnapshotView, UsageWindowSnapshot, WindowRole, WHOLE, trim_trailing, without_trailing};
use crate::json::{as_bool, as_integer, as_scaled, as_object, alike_to, is_readable, json_of_bytes, json_parsed, json_pretty, lookup, lookup_object, lookup_text, member, member_object, member_text, parse_json, lemma_alike_members, parse_json_bytes, readable_to, reads_as, says, whole_numbers_stand_for_themselves, write_json_pretty, Json, JsonObject, JsonValue};
use crate::moment::{time_back_is_the_same, Moment};
use crate::outside::{base64_url_bytes, clock, decode_base64_url, is_instant, is_reading, moment_of_second, rfc3339_moment, rfc3339_text, FIRST_SECOND, LAST_SECOND};
use crate::quantity::{double_scaled, rounded, rounding_leaves_half, rounding_takes_no_side, round_double, Quantity, THOUSANDTH};
use crate::text::{chars_of, concat3, contains, has_at, has_part, lowercase, same, same_option, starts_with, to_lowercase, trim, trimmed, parted, split_once, borrow_text, concat2, copy_or_empty, copy_text, either, glimpsed, keep_nonempty, nonblank, nonempty, normalize_string, or_empty, pieces, seen, split, views, is_white, lemma_char_from, lemma_no_char, lemma_trimmed_alone};

verus! {

/// What went wrong with an account's credentials or its usage.
#[derive(Debug)]
pub enum CodexApiError {
    Message(String),
    Network(String),
    Parse(String),
}

pub enum ApiErrorView {
    Message(Seq<char>),
    Network(Seq<char>),
    Parse(Seq<char>),
}

impl View for CodexApiError {
    type V = ApiErrorView;

    open spec fn view(&self) -> ApiErrorView {
        match self {
            CodexApiError::Message(s) => ApiErrorView::Message(s@),
            CodexApiError::Network(s) => ApiErrorView::Network(s@),
            CodexApiError::Parse(s) => ApiErrorView::Parse(s@),
        }
    }
}

impl CodexApiError {
    /// The error as shown to the user.
    pub fn to_text(&self) -> (r: String)
        ensures
            r@ == (match self@ {
                ApiErrorView::Message(s) => s,
                ApiErrorView::Network(s) => "network error: "@ + s,
                ApiErrorView::Parse(s) => "failed to parse Codex payload: "@ + s,
            }),
    {
        match self {
            CodexApiError::Message(s) => s.clone(),
            CodexApiError::Network(s) => concat2("network error: ", s.as_str()),
            CodexApiError::Parse(s) => concat2("failed to parse Codex payload: ", s.as_str()),
        }
    }
}

/// An identity taken from credentials.
#[derive(Debug)]
pub struct AuthBackedIdentity {
    pub email: Option<String>,
    pub auth_subject: Option<String>,
    pub plan: Option<String>,
    pub provider_account_id: Option<String>,
}

#[verifier::ext_equal]
pub struct IdentityView {
    pub email: Option<Seq<char>>,
    pub auth_subject: Option<Seq<char>>,
    pub plan: Option<Seq<char>>,
    pub provider_account_id: Option<Seq<char>>,
}

impl View for AuthBackedIdentity {
    type V = IdentityView;

    open spec fn view(&self) -> IdentityView {
        IdentityView {
            email: seen(self.email),
            auth_subject: seen(self.auth_subject),
            plan: seen(self.plan),
            provider_account_id: seen(self.provider_account_id),
        }
    }
}

/// The credentials in an account's `auth.json`.
#[derive(Debug)]
pub struct AuthCredentials {
    pub access_token: String,
    pub refresh_token: String,
    pub id_token: Option<String>,
    pub account_id: Option<String>,
    pub last_refresh: Option<Moment>,
}

#[verifier::ext_equal]
pub struct CredentialsView {
    pub access_token: Seq<char>,
    pub refresh_token: Seq<char>,
    pub id_token: Option<Seq<char>>,
    pub account_id: Option<Seq<char>>,
    pub last_refresh: Option<Moment>,
}

impl View for AuthCredentials {
    type V = CredentialsView;

    open spec fn view(&self) -> CredentialsView {
        CredentialsView {
            access_token: self.access_token@,
            refresh_token: self.refresh_token@,
            id_token: seen(self.id_token),
            account_id: seen(self.account_id),
            last_refresh: self.last_refresh,
        }
    }
}

impl Clone for AuthCredentials {
    fn clone(&self) -> (r: AuthCredentials)
        ensures
            r@ == self@,
    {
        AuthCredentials {
            access_token: self.access_token.clone(),
            refresh_token: self.refresh_token.clone(),
            id_token: copy_text(&self.id_token),
            account_id: copy_text(&self.account_id),
            last_refresh: self.last_refresh,
        }
    }
}

/// Eight days, in nanoseconds.
pub const REFRESH_AFTER_NANOS: i128 = 691_200_000_000_000;

impl CredentialsView {
    /// The credentials were never refreshed, or not within the last eight days.
    pub open spec fn stale(self, now: Moment) -> bool {
        match self.last_refresh {
            None => true,
            Some(last) => now.since(last) > REFRESH_AFTER_NANOS,
        }
    }
}

impl AuthCredentials {
    /// Whether the credentials are due for a refresh at `now`.
    pub fn needs_refresh_at(&self, now: Moment) -> (r: bool)
        ensures
            r == self@.stale(now),
    {
        match self.last_refresh {
            None => true,
            Some(last) => now.nanos_since(last) > REFRESH_AFTER_NANOS,
        }
    }

    /// Whether the credentials are due for a refresh by the clock.
    pub fn needs_refresh(&self) -> (r: bool)
        ensures
            self@.last_refresh is None ==> r,
            exists|now: Moment| is_reading(now) && r == #[trigger] self@.stale(now),
    {
        let now = clock();
        self.needs_refresh_at(now)
    }
}

/// `bytes` filled up with `=` to a multiple of four.
pub open spec fn padded(bytes: Seq<u8>) -> Seq<u8> {
    bytes + Seq::new(((4 - bytes.len() % 4) % 4) as nat, |i: int| 61u8)
}

/// The middle part of a token, ready to be decoded.
pub open spec fn token_payload(token: Seq<char>) -> Option<Seq<u8>> {
    let parts = pieces(token, '.');
    if parts.len() >= 2 {
        Some(padded(encode_utf8(parts[1])))
    } else {
        None
    }
}

/// The middle part of a token, ready to be decoded.
pub fn jwt_payload_bytes(token: &str) -> (r: Option<Vec<u8>>)
    ensures
        r matches Some(bytes) ==> token_payload(token@) == Some(bytes@),
        r is None <==> token_payload(token@) is None,
{
    let parts = split(token, '.');
    proof {
        assert(views(parts@).len() == parts@.len());
    }
    if parts.len() < 2 {
        return None;
    }
    let source = parts[1].as_str().as_bytes();
    assert(views(parts@)[1] == parts@[1]@);
    let ghost bytes = source@;
    let mut out: Vec<u8> = Vec::new();
    let mut i: usize = 0;
    while i < source.len()
        invariant
            i <= source@.len(),
            out@ == source@.take(i as int),
        decreases source@.len() - i,
    {
        out.push(source[i]);
        assert(source@.take(i + 1) =~= source@.take(i as int).push(source@[i as int]));
        i += 1;
    }
    assert(out@ =~= source@);
    let missing: usize = (4 - source.len() % 4) % 4;
    let mut k: usize = 0;
    while k < missing
        invariant
            k <= missing,
            out@ == bytes + Seq::new(k as nat, |i: int| 61u8),
        decreases missing - k,
    {
        out.push(61);
        assert(out@ =~= bytes + Seq::new((k + 1) as nat, |i: int| 61u8));
        k += 1;
    }
    Some(out)
}

/// The claims in a token; the signature is not looked at.
pub open spec fn claims(token: Seq<char>) -> Option<Map<Seq<char>, JsonValue>> {
    match token_payload(token) {
        None => None,
        Some(text) => match base64_url_bytes(text) {
            None => None,
            Some(bytes) => match json_of_bytes(bytes) {
                None => None,
                Some(v) => as_object(v),
            },
        },
    }
}

/// The claims in a token; the signature is not looked at.
pub fn jwt_payload(token: &str) -> (r: Option<JsonObject>)
    ensures
        r matches Some(o) ==> claims(token@) == Some(o@),
        r is None <==> claims(token@) is None,
{
    let text = match jwt_payload_bytes(token) {
        Some(text) => text,
        None => {
            return None;
        },
    };
    let bytes = match decode_base64_url(text.as_slice()) {
        Some(bytes) => bytes,
        None => {
            return None;
        },
    };
    match parse_json_bytes(bytes.as_slice()) {
        Some(Json::Object(o)) => Some(o),
        _ => None,
    }
}

/// The account id in a token's claims: in the provider's own claim, else at the top. Without
/// the provider's own claim there is none.
pub open spec fn claimed_account_id(payload: Map<Seq<char>, JsonValue>) -> Option<Seq<char>> {
    match member_object(payload, "https://api.openai.com/auth"@) {
        None => None,
        Some(auth) => either(
            nonblank(member_text(auth, "chatgpt_account_id"@)),
            nonblank(member_text(payload, "chatgpt_account_id"@)),
        ),
    }
}

/// The account id in a token's claims.
pub fn account_id_from_claims(payload: &JsonObject) -> (r: Option<String>)
    ensures
        seen(r) == claimed_account_id(payload@),
{
    match payload.object("https://api.openai.com/auth") {
        None => None,
        Some(auth) => match normalize_string(auth.text("chatgpt_account_id")) {
            Some(id) => Some(id),
            None => normalize_string(payload.text("chatgpt_account_id")),
        },
    }
}

/// The account id in a token.
pub open spec fn token_account_id(id_token: Option<Seq<char>>) -> Option<Seq<char>> {
    match id_token {
        None => None,
        Some(token) => match claims(token) {
            None => None,
            Some(payload) => claimed_account_id(payload),
        },
    }
}

/// The account id in a token.
pub fn account_id_from_id_token(id_token: Option<&str>) -> (r: Option<String>)
    ensures
        seen(r) == token_account_id(glimpsed(id_token)),
{
    match id_token {
        None => None,
        Some(token) => match jwt_payload(token) {
            None => None,
            Some(payload) => account_id_from_claims(&payload),
        },
    }
}

/// The identity behind credentials, given the claims of their id token.
pub open spec fn identity_of(
    account_id: Option<Seq<char>>,
    payload: Map<Seq<char>, JsonValue>,
) -> IdentityView {
    let auth = match member_object(payload, "https://api.openai.com/auth"@) {
        Some(m) => m,
        None => Map::empty(),
    };
    let profile = match member_object(payload, "https://api.openai.com/profile"@) {
        Some(m) => m,
        None => Map::empty(),
    };
    IdentityView {
        email: either(
            nonblank(member_text(payload, "email"@)),
            nonblank(member_text(profile, "email"@)),
        ),
        auth_subject: nonblank(member_text(payload, "sub"@)),
        plan: either(
            nonblank(member_text(auth, "chatgpt_plan_type"@)),
            nonblank(member_text(payload, "chatgpt_plan_type"@)),
        ),
        provider_account_id: either(
            nonblank(account_id),
            either(
                nonblank(member_text(auth, "chatgpt_account_id"@)),
                nonblank(member_text(payload, "chatgpt_account_id"@)),
            ),
        ),
    }
}

/// The first text that is not blank.
fn first_nonblank(a: Option<&str>, b: Option<&str>) -> (r: Option<String>)
    ensures
        seen(r) == either(nonblank(glimpsed(a)), nonblank(glimpsed(b))),
{
    match normalize_string(a) {
        Some(s) => Some(s),
        None => normalize_string(b),
    }
}

/// The text under `key` in an object that may be absent.
fn text_in<'a>(object: Option<&'a JsonObject>, key: &str) -> (r: Option<&'a str>)
    ensures
        glimpsed(r) == (match object {
            Some(o) => member_text(o@, key@),
            None => None,
        }),
{
    match object {
        Some(o) => o.text(key),
        None => None,
    }
}

/// The identity behind credentials, given the claims of their id token.
pub fn identity_from_claims(account_id: Option<&str>, payload: &JsonObject) -> (r: AuthBackedIdentity)
    ensures
        r@ == identity_of(glimpsed(account_id), payload@),
{
    let auth = payload.object("https://api.openai.com/auth");
    let profile = payload.object("https://api.openai.com/profile");
    let provider_account_id = match normalize_string(account_id) {
        Some(id) => Some(id),
        None => first_nonblank(
            text_in(auth, "chatgpt_account_id"),
            payload.text("chatgpt_account_id"),
        ),
    };
    AuthBackedIdentity {
        email: first_nonblank(payload.text("email"), text_in(profile, "email")),
        auth_subject: normalize_string(payload.text("sub")),
        plan: first_nonblank(
            text_in(auth, "chatgpt_plan_type"),
            payload.text("chatgpt_plan_type"),
        ),
        provider_account_id,
    }
}

impl CredentialsView {
    /// The claims of the id token; none where there is no readable token.
    pub open spec fn own_claims(self) -> Map<Seq<char>, JsonValue> {
        match self.id_token {
            Some(token) => match claims(token) {
                Some(m) => m,
                None => Map::empty(),
            },
            None => Map::empty(),
        }
    }

    /// The identity behind the credentials.
    pub open spec fn identity(self) -> IdentityView {
        identity_of(self.account_id, self.own_claims())
    }
}

/// The identity behind credentials.
pub fn identity_from_credentials(credentials: &AuthCredentials) -> (r: AuthBackedIdentity)
    ensures
        r@ == credentials@.identity(),
{
    let payload = match &credentials.id_token {
        Some(token) => match jwt_payload(token.as_str()) {
            Some(payload) => payload,
            None => JsonObject::new(),
        },
        None => JsonObject::new(),
    };
    identity_from_claims(borrow_text(&credentials.account_id), &payload)
}

/// The message for an `auth.json` without tokens.
pub const MISSING_TOKENS: &'static str = "The required token fields are missing from `auth.json`.";

/// The credentials in an `auth.json`: an API key, else the tokens.
pub open spec fn credentials_in(json: JsonValue) -> Result<CredentialsView, ApiErrorView> {
    match nonblank(lookup_text(json, "OPENAI_API_KEY"@)) {
        Some(key) => Ok(
            CredentialsView {
                access_token: key,
                refresh_token: Seq::empty(),
                id_token: None,
                account_id: None,
                last_refresh: None,
            },
        ),
        None => match lookup_object(json, "tokens"@) {
            None => Err(ApiErrorView::Message(MISSING_TOKENS@)),
            Some(tokens) => match nonempty(member_text(tokens, "access_token"@)) {
                None => Err(ApiErrorView::Message(MISSING_TOKENS@)),
                Some(access_token) => {
                    let id_token = member_text(tokens, "id_token"@);
                    Ok(
                        CredentialsView {
                            access_token,
                            refresh_token: or_empty(member_text(tokens, "refresh_token"@)),
                            id_token,
                            account_id: either(
                                nonempty(member_text(tokens, "account_id"@)),
                                token_account_id(id_token),
                            ),
                            last_refresh: moment_in(lookup_text(json, "last_refresh"@)),
                        },
                    )
                },
            },
        },
    }
}

/// The instant that an optional text holds.
pub open spec fn moment_in(text: Option<Seq<char>>) -> Option<Moment> {
    match text {
        Some(t) => match dated(t) {
            Some(d) => rfc3339_moment(d),
            None => None,
        },
        None => None,
    }
}

/// What a result of reading credentials holds.
pub open spec fn credentials_seen(r: Result<AuthCredentials, CodexApiError>) -> Result<
    CredentialsView,
    ApiErrorView,
> {
    match r {
        Ok(c) => Ok(c@),
        Err(e) => Err(e@),
    }
}

/// The credentials in an `auth.json` that was read as JSON.
pub fn credentials_from_json(json: &Json) -> (r: Result<AuthCredentials, CodexApiError>)
    ensures
        credentials_seen(r) == credentials_in(json@),
{
    if let Some(key) = normalize_string(json.text_at("OPENAI_API_KEY")) {
        return Ok(
            AuthCredentials {
                access_token: key,
                refresh_token: String::new(),
                id_token: None,
                account_id: None,
                last_refresh: None,
            },
        );
    }
    let tokens = match json.object_at("tokens") {
        Some(tokens) => tokens,
        None => {
            return Err(CodexApiError::Message(MISSING_TOKENS.to_owned()));
        },
    };
    let access_token = match keep_nonempty(tokens.text("access_token")) {
        Some(token) => token,
        None => {
            return Err(CodexApiError::Message(MISSING_TOKENS.to_owned()));
        },
    };
    let id_token = match tokens.text("id_token") {
        Some(token) => Some(token.to_owned()),
        None => None,
    };
    let account_id = match keep_nonempty(tokens.text("account_id")) {
        Some(id) => Some(id),
        None => account_id_from_id_token(borrow_text(&id_token)),
    };
    let last_refresh = match json.text_at("last_refresh") {
        Some(text) => parse_datetime(text),
        None => None,
    };
    Ok(
        AuthCredentials {
            access_token,
            refresh_token: copy_or_empty(tokens.text("refresh_token")),
            id_token,
            account_id,
            last_refresh,
        },
    )
}

/// The credentials in the text of an `auth.json`.
pub open spec fn credentials_in_text(content: Seq<char>) -> Result<CredentialsView, ApiErrorView> {
    match json_parsed(content) {
        Ok(json) => credentials_in(json),
        Err(e) => Err(ApiErrorView::Parse("Failed to parse the auth file: "@ + e)),
    }
}

/// Reads an `auth.json`, which holds an API key or a `tokens` object.
pub fn parse_credentials_json(content: &str) -> (r: Result<AuthCredentials, CodexApiError>)
    ensures
        credentials_seen(r) == credentials_in_text(content@),
{
    match parse_json(content) {
        Ok(json) => credentials_from_json(&json),
        Err(e) => Err(CodexApiError::Parse(concat2("Failed to parse the auth file: ", e.as_str()))),
    }
}

/// What reading a file came to.
pub enum FileRead {
    Contents(String),
    NotFound,
    Failed(String),
}

/// The credentials of an account, given what reading its `auth.json` came to.
pub fn load_credentials(auth_file: &FileRead) -> (r: Result<AuthCredentials, CodexApiError>)
    ensures
        credentials_seen(r) == (match auth_file {
            FileRead::Contents(content) => credentials_in_text(content@),
            FileRead::NotFound => Err(
                ApiErrorView::Message("No `auth.json` was found for this account."@),
            ),
            FileRead::Failed(e) => Err(
                ApiErrorView::Parse("Failed to read the auth file: "@ + e@),
            ),
        }),
{
    match auth_file {
        FileRead::Contents(content) => parse_credentials_json(content.as_str()),
        FileRead::NotFound => Err(
            CodexApiError::Message("No `auth.json` was found for this account.".to_owned()),
        ),
        FileRead::Failed(e) => Err(
            CodexApiError::Parse(concat2("Failed to read the auth file: ", e.as_str())),
        ),
    }
}

/// The identity of an account, given what reading its `auth.json` came to.
pub fn load_identity(auth_file: &FileRead) -> (r: Result<AuthBackedIdentity, CodexApiError>)
    ensures
        (match auth_file {
            FileRead::Contents(content) => match credentials_in_text(content@) {
                Ok(c) => r is Ok && r->Ok_0@ == c.identity(),
                Err(e) => r is Err && r->Err_0@ == e,
            },
            FileRead::NotFound => r is Err && r->Err_0@ == ApiErrorView::Message(
                "No `auth.json` was found for this account."@,
            ),
            FileRead::Failed(e) => r is Err && r->Err_0@ == ApiErrorView::Parse(
                "Failed to read the auth file: "@ + e@,
            ),
        }),
{
    match load_credentials(auth_file) {
        Ok(credentials) => Ok(identity_from_credentials(&credentials)),
        Err(e) => Err(e),
    }
}

/// The `tokens` object that credentials are written as.
pub open spec fn token_members(c: CredentialsView) -> Map<Seq<char>, JsonValue> {
    let base = Map::<Seq<char>, JsonValue>::empty().insert(
        "access_token"@,
        JsonValue::Text(c.access_token),
    ).insert("refresh_token"@, JsonValue::Text(c.refresh_token));
    let with_id = match c.id_token {
        Some(t) => base.insert("id_token"@, JsonValue::Text(t)),
        None => base,
    };
    match c.account_id {
        Some(a) => with_id.insert("account_id"@, JsonValue::Text(a)),
        None => with_id,
    }
}

/// An `auth.json` with credentials put into it. Other members stay as they are, and so does
/// a document that is no object.
pub open spec fn with_credentials(
    payload: JsonValue,
    c: CredentialsView,
    refreshed: Seq<char>,
) -> JsonValue {
    match payload {
        JsonValue::Object(m) => JsonValue::Object(
            m.insert("tokens"@, JsonValue::Object(token_members(c))).insert(
                "last_refresh"@,
                JsonValue::Text(refreshed),
            ),
        ),
        other => other,
    }
}

/// Puts credentials into an `auth.json`; `refreshed` is the time of the refresh, written out.
pub fn put_credentials(payload: Json, credentials: &AuthCredentials, refreshed: &str) -> (r: Json)
    ensures
        r@ == with_credentials(payload@, credentials@, refreshed@),
{
    match payload {
        Json::Object(object) => {
            let mut object = object;
            let mut tokens = JsonObject::new();
            tokens.set("access_token", Json::Text(credentials.access_token.clone()));
            tokens.set("refresh_token", Json::Text(credentials.refresh_token.clone()));
            if let Some(token) = &credentials.id_token {
                tokens.set("id_token", Json::Text(token.clone()));
            }
            if let Some(id) = &credentials.account_id {
                tokens.set("account_id", Json::Text(id.clone()));
            }
            object.set("tokens", Json::Object(tokens));
            object.set("last_refresh", Json::Text(refreshed.to_owned()));
            Json::Object(object)
        },
        other => other,
    }
}

/// The document that an existing `auth.json` holds: an empty object where it cannot be read.
pub open spec fn existing_payload(raw: Option<Seq<char>>) -> JsonValue {
    match raw {
        Some(text) => match json_parsed(text) {
            Ok(v) => v,
            Err(_) => JsonValue::Object(Map::empty()),
        },
        None => JsonValue::Object(Map::empty()),
    }
}

/// Whether credentials put into a document are what is read from it afterwards: the document
/// is an object without an API key, which would go before the tokens, and the credentials
/// have an access token, and no empty account id.
pub open spec fn can_be_read_back(payload: JsonValue, c: CredentialsView) -> bool {
    &&& payload is Object
    &&& nonblank(lookup_text(payload, "OPENAI_API_KEY"@)) is None
    &&& c.access_token.len() > 0
    &&& c.account_id matches Some(a) ==> a.len() > 0
}

/// Credentials as they are read after they were saved at `now`.
pub open spec fn saved_at(c: CredentialsView, now: Moment) -> CredentialsView {
    CredentialsView {
        account_id: either(c.account_id, token_account_id(c.id_token)),
        last_refresh: Some(now),
        ..c
    }
}

/// Credentials keep a document readable.
proof fn lemma_credentials_stay_readable(payload: JsonValue, c: CredentialsView, refreshed: Seq<char>)
    requires
        is_readable(payload),
    ensures
        is_readable(with_credentials(payload, c, refreshed)),
{
    if let JsonValue::Object(m) = payload {
        let tokens = token_members(c);
        assert forall|k: Seq<char>| #[trigger] tokens.contains_key(k) implies readable_to(
            tokens[k],
            125,
        ) by {
            assert(tokens[k] is Text);
        }
        assert(readable_to(JsonValue::Object(tokens), 126));
        let after = m.insert("tokens"@, JsonValue::Object(tokens)).insert(
            "last_refresh"@,
            JsonValue::Text(refreshed),
        );
        assert forall|k: Seq<char>| #[trigger] after.contains_key(k) implies readable_to(
            after[k],
            126,
        ) by {
            if k != "tokens"@ && k != "last_refresh"@ {
                assert(m.contains_key(k));
            }
        }
    }
}

/// Documents that differ in doubles alone hold the same credentials.
pub proof fn doubles_do_not_change_credentials(a: JsonValue, b: JsonValue, depth: nat)
    requires
        alike_to(a, b, depth),
    ensures
        credentials_in(a) == credentials_in(b),
{
    if let (JsonValue::Object(m), JsonValue::Object(n)) = (a, b) {
        lemma_alike_members(m, n, depth, "OPENAI_API_KEY"@);
        lemma_alike_members(m, n, depth, "last_refresh"@);
        lemma_alike_members(m, n, depth, "tokens"@);
        if let Some(x) = member_object(m, "tokens"@) {
            let y = member_object(n, "tokens"@)->Some_0;
            let inner = (depth - 1) as nat;
            lemma_alike_members(x, y, inner, "access_token"@);
            lemma_alike_members(x, y, inner, "refresh_token"@);
            lemma_alike_members(x, y, inner, "id_token"@);
            lemma_alike_members(x, y, inner, "account_id"@);
        }
    }
}

/// The new text of an `auth.json` with the given contents, if any, after a refresh at `now`.
pub fn save_credentials(raw: Option<&str>, credentials: &AuthCredentials, now: Moment) -> (r: String)
    requires
        is_instant(now),
    ensures
        r@ == json_pretty(
            with_credentials(existing_payload(glimpsed(raw)), credentials@, rfc3339_text(now)),
        ),
        -62_167_219_200 <= now.secs <= 253_402_300_799 ==> moment_in(Some(rfc3339_text(now)))
            == Some(now),
        reads_as(
            r@,
            with_credentials(existing_payload(glimpsed(raw)), credentials@, rfc3339_text(now)),
        ),
        can_be_read_back(existing_payload(glimpsed(raw)), credentials@) && -62_167_219_200
            <= now.secs <= 253_402_300_799 ==> credentials_in_text(r@) == Ok::<
            CredentialsView,
            ApiErrorView,
        >(saved_at(credentials@, now)),
{
    let payload = match raw {
        Some(text) => match parse_json(text) {
            Ok(json) => json,
            Err(_) => Json::Object(JsonObject::new()),
        },
        None => Json::Object(JsonObject::new()),
    };
    let refreshed = copy_or_empty(borrow_text(&format_datetime(Some(now))));
    proof {
        lemma_credentials_stay_readable(payload@, credentials@, refreshed@);
        if let JsonValue::Object(m) = payload@ {
            if can_be_read_back(payload@, credentials@) {
                saved_credentials_are_read_back(m, credentials@, refreshed@);
            }
        }
    }
    let document = put_credentials(payload, credentials, refreshed.as_str());
    let text = write_json_pretty(&document);
    proof {
        doubles_do_not_change_credentials(json_parsed(text@)->Ok_0, document@, 127);
    }
    text
}

/// What was saved is what is read back: the same tokens and account id, the time of the
/// refresh, and every other member untouched. Left out are files with an API key, which goes
/// before the tokens, and credentials whose access token or account id is empty.
pub proof fn saved_credentials_are_read_back(
    m: Map<Seq<char>, JsonValue>,
    c: CredentialsView,
    refreshed: Seq<char>,
)
    requires
        nonblank(member_text(m, "OPENAI_API_KEY"@)) is None,
        c.access_token.len() > 0,
        c.account_id matches Some(a) ==> a.len() > 0,
    ensures
        credentials_in(with_credentials(JsonValue::Object(m), c, refreshed)) == Ok::<
            CredentialsView,
            ApiErrorView,
        >(
            CredentialsView {
                account_id: either(c.account_id, token_account_id(c.id_token)),
                last_refresh: moment_in(Some(refreshed)),
                ..c
            },
        ),
        forall|key: Seq<char>|
            key != "tokens"@ && key != "last_refresh"@ ==> #[trigger] lookup(
                with_credentials(JsonValue::Object(m), c, refreshed),
                key,
            ) == member(m, key),
{
    reveal_strlit("tokens");
    reveal_strlit("last_refresh");
    reveal_strlit("OPENAI_API_KEY");
    reveal_strlit("access_token");
    reveal_strlit("refresh_token");
    reveal_strlit("id_token");
    reveal_strlit("account_id");
    assert("tokens"@.len() == 6);
    assert("last_refresh"@.len() == 12);
    assert("OPENAI_API_KEY"@.len() == 14);
    assert("access_token"@.len() == 12);
    assert("refresh_token"@.len() == 13);
    assert("id_token"@.len() == 8);
    assert("account_id"@.len() == 10);
}

/// Saving keeps every other member of an `auth.json`: where the saved text is read as the document
/// with the credentials in it, but for the values of doubles, each is there as it was, but for
/// those, and none is added.
pub proof fn saving_keeps_other_members(
    text: Seq<char>,
    m: Map<Seq<char>, JsonValue>,
    c: CredentialsView,
    refreshed: Seq<char>,
    key: Seq<char>,
)
    requires
        reads_as(text, with_credentials(JsonValue::Object(m), c, refreshed)),
        key != "tokens"@,
        key != "last_refresh"@,
    ensures
        lookup(json_parsed(text)->Ok_0, key) is Some == m.contains_key(key),
        m.contains_key(key) ==> alike_to(
            lookup(json_parsed(text)->Ok_0, key)->Some_0,
            m[key],
            126,
        ),
{
    let after = with_credentials(JsonValue::Object(m), c, refreshed)->Object_0;
    lemma_alike_members(json_parsed(text)->Ok_0->Object_0, after, 127, key);
}

/// The text under `key` in a reply, where it is not empty.
fn string_value(value: &Json, key: &str) -> (r: Option<String>)
    ensures
        seen(r) == nonempty(lookup_text(value@, key@)),
{
    keep_nonempty(value.text_at(key))
}

/// The message for a reply that is not what it should be.
pub const UNEXPECTED_REPLY: &'static str = "The Codex API response was not in the expected format.";

/// The identifier under which tokens are refreshed.
pub const REFRESH_CLIENT_ID: &'static str = "app_EMoamEEZ73f0CkXaXp7hrann";

/// Where tokens are refreshed.
pub const REFRESH_ENDPOINT: &'static str = "https://auth.openai.com/oauth/token";

/// Where usage is read when nothing else is configured.
pub const USAGE_DEFAULT_BASE: &'static str = "https://chatgpt.com/backend-api";

/// How long a request may take.
pub const REQUEST_TIMEOUT_SECONDS: u64 = 30;

/// The message for a request that was not let through.
pub const UNAUTHORIZED_MESSAGE: &'static str = "The Codex usage API request returned unauthorized.";

/// The members of a refresh request.
pub open spec fn refresh_members(refresh_token: Seq<char>) -> Map<Seq<char>, JsonValue> {
    Map::<Seq<char>, JsonValue>::empty().insert(
        "client_id"@,
        JsonValue::Text(REFRESH_CLIENT_ID@),
    ).insert("grant_type"@, JsonValue::Text("refresh_token"@)).insert(
        "refresh_token"@,
        JsonValue::Text(refresh_token),
    ).insert("scope"@, JsonValue::Text("openid profile email"@))
}

/// The body of a refresh request. Without a refresh token there is none to make.
pub fn refresh_request(credentials: &AuthCredentials) -> (r: Result<Json, CodexApiError>)
    ensures
        credentials@.refresh_token.len() == 0 <==> r is Err,
        r matches Ok(body) ==> body@ == JsonValue::Object(
            refresh_members(credentials@.refresh_token),
        ),
        r matches Err(e) ==> e@ == ApiErrorView::Message(
            "No refresh token available for this account."@,
        ),
{
    if credentials.refresh_token.as_str().is_empty() {
        return Err(
            CodexApiError::Message("No refresh token available for this account.".to_owned()),
        );
    }
    let mut body = JsonObject::new();
    body.set("client_id", Json::Text(REFRESH_CLIENT_ID.to_owned()));
    body.set("grant_type", Json::Text("refresh_token".to_owned()));
    body.set("refresh_token", Json::Text(credentials.refresh_token.clone()));
    body.set("scope", Json::Text("openid profile email".to_owned()));
    Ok(Json::Object(body))
}

/// The error code in a reply: under `error`, as an object with a code or as a text, else
/// under `code`.
pub open spec fn error_code(payload: JsonValue) -> Seq<char> {
    match lookup(payload, "error"@) {
        Some(JsonValue::Object(error)) => or_empty(member_text(error, "code"@)),
        Some(JsonValue::Text(error)) => error,
        _ => or_empty(lookup_text(payload, "code"@)),
    }
}

/// The error code in a reply that was read as JSON.
pub fn error_code_in(payload: &Json) -> (r: String)
    ensures
        r@ == error_code(payload@),
{
    match payload.get("error") {
        Some(Json::Object(error)) => copy_or_empty(error.text("code")),
        Some(Json::Text(error)) => error.clone(),
        _ => copy_or_empty(payload.text_at("code")),
    }
}

/// The error code in a reply; empty where the reply cannot be read.
pub open spec fn error_code_of_text(payload: Seq<char>) -> Seq<char> {
    match json_parsed(payload) {
        Ok(v) => error_code(v),
        Err(_) => Seq::empty(),
    }
}

/// The error code in a reply.
pub fn extract_error_code(payload: &str) -> (r: String)
    ensures
        r@ == error_code_of_text(payload@),
{
    match parse_json(payload) {
        Ok(json) => error_code_in(&json),
        Err(_) => String::new(),
    }
}

/// What the user is told of a refused refresh, by its error code in small letters.
pub open spec fn refusal_message(code: Seq<char>) -> Seq<char> {
    if code == "refresh_token_reused"@ {
        "The refresh token can no longer be reused. Sign in again for this account."@
    } else if code == "refresh_token_invalidated"@ {
        "The refresh token was revoked. Sign in again for this account."@
    } else {
        "The refresh token has expired. Sign in again for this account."@
    }
}

/// What the user is told of a refused refresh, by its error code in small letters.
pub fn refresh_refusal(code: &str) -> (r: &'static str)
    ensures
        r@ == refusal_message(code@),
{
    if same(code, "refresh_token_reused") {
        "The refresh token can no longer be reused. Sign in again for this account."
    } else if same(code, "refresh_token_invalidated") {
        "The refresh token was revoked. Sign in again for this account."
    } else {
        "The refresh token has expired. Sign in again for this account."
    }
}

/// A status that means success.
pub open spec fn is_success(status: u16) -> bool {
    200 <= status < 300
}

/// What is told of a refresh that was not let through, by its status and the body of the reply.
pub open spec fn refresh_error(status: u16, body: Seq<char>) -> Seq<char> {
    if status == 401 {
        refusal_message(lowercase(error_code_of_text(body)))
    } else {
        UNEXPECTED_REPLY@
    }
}

/// The error that the status of a refresh reply stands for; `None` for a success.
pub fn refresh_failure(status: u16, body: &str) -> (r: Option<CodexApiError>)
    ensures
        r is None <==> is_success(status),
        r matches Some(e) ==> e@ == ApiErrorView::Message(refresh_error(status, body@)),
{
    if status == 401 {
        let code = to_lowercase(extract_error_code(body).as_str());
        return Some(CodexApiError::Message(refresh_refusal(code.as_str()).to_owned()));
    }
    if status < 200 || status >= 300 {
        return Some(CodexApiError::Message(UNEXPECTED_REPLY.to_owned()));
    }
    None
}

/// Credentials after a refresh at `now`: what the reply holds, else what was there before.
pub open spec fn refreshed_with(
    c: CredentialsView,
    payload: JsonValue,
    now: Moment,
) -> CredentialsView {
    let new_id_token = nonempty(lookup_text(payload, "id_token"@));
    CredentialsView {
        access_token: match nonempty(lookup_text(payload, "access_token"@)) {
            Some(t) => t,
            None => c.access_token,
        },
        refresh_token: match nonempty(lookup_text(payload, "refresh_token"@)) {
            Some(t) => t,
            None => c.refresh_token,
        },
        id_token: either(new_id_token, c.id_token),
        account_id: either(c.account_id, token_account_id(new_id_token)),
        last_refresh: Some(now),
    }
}

/// The credentials that a successful refresh reply leads to.
pub fn refreshed_credentials(credentials: &AuthCredentials, payload: &Json, now: Moment) -> (r: Result<
    AuthCredentials,
    CodexApiError,
>)
    ensures
        credentials_seen(r) == (if payload@ is Object {
            Ok(refreshed_with(credentials@, payload@, now))
        } else {
            Err(ApiErrorView::Message(UNEXPECTED_REPLY@))
        }),
{
    if payload.object().is_none() {
        return Err(CodexApiError::Message(UNEXPECTED_REPLY.to_owned()));
    }
    let new_id_token = string_value(payload, "id_token");
    let account_id = match &credentials.account_id {
        Some(id) => Some(id.clone()),
        None => account_id_from_id_token(borrow_text(&new_id_token)),
    };
    let access_token = match string_value(payload, "access_token") {
        Some(t) => t,
        None => credentials.access_token.clone(),
    };
    let refresh_token = match string_value(payload, "refresh_token") {
        Some(t) => t,
        None => credentials.refresh_token.clone(),
    };
    let id_token = match new_id_token {
        Some(t) => Some(t),
        None => copy_text(&credentials.id_token),
    };
    Ok(AuthCredentials { access_token, refresh_token, id_token, account_id, last_refresh: Some(now) })
}

/// A reply of a server. Of a success the bytes of its body count, of any other reply the text.
#[derive(Debug)]
pub struct Reply {
    pub status: u16,
    /// The status with its reason, such as `500 Internal Server Error`.
    pub status_text: String,
    pub bytes: Vec<u8>,
    pub text: String,
}

/// What is told of a success whose body is no JSON.
pub const UNREADABLE_REPLY: &'static str = "error decoding response body";

/// What a refresh reply leads to, at `now`.
pub open spec fn refresh_outcome(c: CredentialsView, reply: Reply, now: Moment) -> Result<
    CredentialsView,
    ApiErrorView,
> {
    if !is_success(reply.status) {
        Err(ApiErrorView::Message(refresh_error(reply.status, reply.text@)))
    } else {
        match json_of_bytes(reply.bytes@) {
            None => Err(ApiErrorView::Parse(UNREADABLE_REPLY@)),
            Some(payload) => if payload is Object {
                Ok(refreshed_with(c, payload, now))
            } else {
                Err(ApiErrorView::Message(UNEXPECTED_REPLY@))
            },
        }
    }
}

/// The credentials that a refresh reply leads to.
pub fn refresh_reply(credentials: &AuthCredentials, reply: &Reply, now: Moment) -> (r: Result<
    AuthCredentials,
    CodexApiError,
>)
    ensures
        credentials_seen(r) == refresh_outcome(credentials@, *reply, now),
{
    if let Some(failure) = refresh_failure(reply.status, reply.text.as_str()) {
        return Err(failure);
    }
    match parse_json_bytes(reply.bytes.as_slice()) {
        Some(payload) => refreshed_credentials(credentials, &payload, now),
        None => Err(CodexApiError::Parse(UNREADABLE_REPLY.to_owned())),
    }
}

/// A refresh never forgets: a token or an account id that was there is there afterwards, the
/// account id does not change, and the credentials are fresh at the time of the refresh.
pub proof fn refresh_keeps_the_account(c: CredentialsView, payload: JsonValue, now: Moment)
    ensures
        c.access_token.len() > 0 ==> refreshed_with(c, payload, now).access_token.len() > 0,
        c.refresh_token.len() > 0 ==> refreshed_with(c, payload, now).refresh_token.len() > 0,
        c.id_token is Some ==> refreshed_with(c, payload, now).id_token is Some,
        c.account_id is Some ==> refreshed_with(c, payload, now).account_id == c.account_id,
        !refreshed_with(c, payload, now).stale(now),
{
}

/// The headers of a usage request.
pub open spec fn usage_headers(token: Seq<char>, account_id: Option<Seq<char>>) -> Seq<
    (Seq<char>, Seq<char>),
> {
    let base = seq![
        ("Authorization"@, "Bearer "@ + token),
        ("User-Agent"@, "codex-cli"@),
        ("Accept"@, "application/json"@),
        ("Cache-Control"@, "no-cache, no-store, max-age=0"@),
        ("Pragma"@, "no-cache"@),
    ];
    match account_id {
        Some(id) => base.push(("ChatGPT-Account-Id"@, id)),
        None => base,
    }
}

/// The views of pairs of texts.
pub open spec fn pair_views(v: Seq<(String, String)>) -> Seq<(Seq<char>, Seq<char>)> {
    v.map_values(|p: (String, String)| (p.0@, p.1@))
}

/// The headers of a usage request.
pub fn usage_request_headers(access_token: &str, account_id: Option<&str>) -> (r: Vec<
    (String, String),
>)
    ensures
        pair_views(r@) == usage_headers(access_token@, glimpsed(account_id)),
{
    let mut out: Vec<(String, String)> = Vec::new();
    out.push(("Authorization".to_owned(), concat2("Bearer ", access_token)));
    out.push(("User-Agent".to_owned(), "codex-cli".to_owned()));
    out.push(("Accept".to_owned(), "application/json".to_owned()));
    out.push(("Cache-Control".to_owned(), "no-cache, no-store, max-age=0".to_owned()));
    out.push(("Pragma".to_owned(), "no-cache".to_owned()));
    if let Some(id) = account_id {
        out.push(("ChatGPT-Account-Id".to_owned(), id.to_owned()));
    }
    assert(pair_views(out@) =~= usage_headers(access_token@, glimpsed(account_id)));
    out
}

/// What is told of a usage request that failed, by its status and the body of the reply.
pub open spec fn usage_error(status: u16, status_text: Seq<char>, body: Seq<char>) -> Seq<char> {
    if status == 401 || status == 403 {
        UNAUTHORIZED_MESSAGE@
    } else if trimmed(body).len() == 0 {
        "Codex API error "@ + status_text + "."@
    } else {
        "Codex API error "@ + status_text + ": "@ + trimmed(body)
    }
}

/// The error that the status of a usage reply stands for; `None` for a success.
/// `status_text` is the status with its reason, such as `500 Internal Server Error`.
pub fn usage_failure(status: u16, status_text: &str, body: &str) -> (r: Option<CodexApiError>)
    ensures
        r is None <==> is_success(status),
        r matches Some(e) ==> e@ == ApiErrorView::Message(
            usage_error(status, status_text@, body@),
        ),
{
    if 200 <= status && status < 300 {
        return None;
    }
    if status == 401 || status == 403 {
        return Some(CodexApiError::Message(UNAUTHORIZED_MESSAGE.to_owned()));
    }
    let text = trim(body);
    let head = concat2("Codex API error ", status_text);
    let message = if text.is_empty() {
        concat2(head.as_str(), ".")
    } else {
        concat3(head.as_str(), ": ", text)
    };
    Some(CodexApiError::Message(message))
}

/// Whether a usage reply is of the right form: an object.
pub fn check_usage_reply(reply: &Json) -> (r: Result<(), CodexApiError>)
    ensures
        r is Ok <==> reply@ is Object,
        r matches Err(e) ==> e@ == ApiErrorView::Parse(UNEXPECTED_REPLY@),
{
    if reply.object().is_some() {
        Ok(())
    } else {
        Err(CodexApiError::Parse(UNEXPECTED_REPLY.to_owned()))
    }
}

/// A value without the quotes around it.
pub open spec fn unquoted(v: Seq<char>) -> Seq<char> {
    if v.len() >= 2 && ((v[0] == '"' && v.last() == '"') || (v[0] == '\'' && v.last() == '\'')) {
        v.subrange(1, v.len() - 1)
    } else {
        v
    }
}

/// Takes the quotes around a value away.
fn unquote<'a>(v: &'a str) -> (r: &'a str)
    ensures
        r@ == unquoted(v@),
{
    let n = v.unicode_len();
    if n >= 2 {
        let a: char = v.get_char(0);
        let b: char = v.get_char(n - 1);
        if (a == '"' && b == '"') || (a == '\'' && b == '\'') {
            return v.substring_char(1, n - 1);
        }
    }
    v
}

/// A line of a configuration without its comment.
pub open spec fn uncommented(line: Seq<char>) -> Seq<char> {
    trimmed(
        match parted(line, '#') {
            Some((a, _)) => a,
            None => line,
        },
    )
}

/// What goes on from one line of a configuration to the next: how many arrays are open, and the
/// quote of a string that spans lines.
#[derive(Clone, Copy, Debug, PartialEq, Eq, Structural)]
pub struct OpenValue {
    pub arrays: u64,
    pub string: Option<char>,
}

impl OpenValue {
    /// Whether anything is open.
    pub open spec fn is_open(self) -> bool {
        self.arrays > 0 || self.string is Some
    }
}

/// Whether three quotes `q` stand at position `i`.
pub open spec fn has_three(line: Seq<char>, i: int, q: char) -> bool {
    0 <= i && i + 2 < line.len() && line[i] == q && line[i + 1] == q && line[i + 2] == q
}

/// What is open at the end of a line, where `value` is open at position `i` and `quote` is the
/// quote of a string within the line. What stands in a string counts for nothing, and a comment
/// ends the line.
pub open spec fn open_after(line: Seq<char>, i: int, value: OpenValue, quote: Option<char>) -> OpenValue
    decreases line.len() - i,
{
    if i < 0 || i >= line.len() {
        value
    } else {
        let c = line[i];
        match (value.string, quote) {
            (Some(q), _) => if c == '\\' && q == '"' && i + 1 < line.len() {
                open_after(line, i + 2, value, quote)
            } else if has_three(line, i, q) && !has_three(line, i + 1, q) {
                open_after(line, i + 3, OpenValue { string: None, ..value }, None)
            } else {
                open_after(line, i + 1, value, quote)
            },
            (None, Some(q)) => if c == '\\' && q == '"' && i + 1 < line.len() {
                open_after(line, i + 2, value, quote)
            } else if c == q {
                open_after(line, i + 1, value, None)
            } else {
                open_after(line, i + 1, value, quote)
            },
            (None, None) => if c == '#' {
                value
            } else if (c == '"' || c == '\'') && has_three(line, i, c) {
                open_after(line, i + 3, OpenValue { string: Some(c), ..value }, None)
            } else if c == '"' || c == '\'' {
                open_after(line, i + 1, value, Some(c))
            } else if c == '[' && value.arrays < u64::MAX {
                open_after(
                    line,
                    i + 1,
                    OpenValue { arrays: (value.arrays + 1) as u64, ..value },
                    None,
                )
            } else if c == ']' && value.arrays > 0 {
                open_after(
                    line,
                    i + 1,
                    OpenValue { arrays: (value.arrays - 1) as u64, ..value },
                    None,
                )
            } else {
                open_after(line, i + 1, value, None)
            },
        }
    }
}

fn stand_three(v: &Vec<char>, i: usize, q: char) -> (r: bool)
    requires
        i <= v@.len(),
    ensures
        r == has_three(v@, i as int, q),
{
    v.len() - i > 2 && v[i] == q && v[i + 1] == q && v[i + 2] == q
}

/// What is open at the end of a line.
fn read_on(line: &str, before: OpenValue) -> (r: OpenValue)
    ensures
        r == open_after(line@, 0, before, None),
{
    let v = chars_of(line);
    let mut value = before;
    let mut quote: Option<char> = None;
    let mut i: usize = 0;
    while i < v.len()
        invariant
            v@ == line@,
            i <= v@.len(),
            open_after(line@, 0, before, None) == open_after(line@, i as int, value, quote),
        decreases v@.len() - i,
    {
        let c: char = v[i];
        let mut taken: usize = 1;
        match (value.string, quote) {
            (Some(q), _) => {
                if c == '\\' && q == '"' && v.len() - i > 1 {
                    taken = 2;
                } else if stand_three(&v, i, q) && !stand_three(&v, i + 1, q) {
                    value = OpenValue { arrays: value.arrays, string: None };
                    quote = None;
                    taken = 3;
                }
            },
            (None, Some(q)) => {
                if c == '\\' && q == '"' && v.len() - i > 1 {
                    taken = 2;
                } else if c == q {
                    quote = None;
                }
            },
            (None, None) => {
                if c == '#' {
                    return value;
                } else if (c == '"' || c == '\'') && stand_three(&v, i, c) {
                    value = OpenValue { arrays: value.arrays, string: Some(c) };
                    taken = 3;
                } else if c == '"' || c == '\'' {
                    quote = Some(c);
                } else if c == '[' && value.arrays < u64::MAX {
                    value = OpenValue { arrays: value.arrays + 1, string: None };
                } else if c == ']' && value.arrays > 0 {
                    value = OpenValue { arrays: value.arrays - 1, string: None };
                }
            },
        }
        i += taken;
    }
    value
}

/// The `chatgpt_base_url` among the lines of a configuration, where `value` is open before them
/// and `passed` says whether a line that assigns nothing was passed over. Blank lines and comments
/// are always passed over, and so are lines that assign nothing while a value is open, as long as
/// that value ends; at any other line that assigns nothing, such as the name of a table, the
/// search ends.
pub open spec fn configured_base(
    lines: Seq<Seq<char>>,
    value: OpenValue,
    passed: bool,
) -> Option<Seq<char>>
    decreases lines.len(),
{
    if lines.len() == 0 {
        None
    } else {
        let line = uncommented(lines[0]);
        let rest = lines.skip(1);
        let after = open_after(lines[0], 0, value, None);
        if line.len() == 0 {
            configured_base(rest, after, passed)
        } else {
            match parted(line, '=') {
                None => if value.is_open() {
                    configured_base(rest, after, true)
                } else {
                    None
                },
                Some((key, assigned)) => if trimmed(key) != "chatgpt_base_url"@ {
                    configured_base(rest, after, passed)
                } else if passed && value.is_open() {
                    None
                } else {
                    Some(unquoted(trimmed(assigned)))
                },
            }
        }
    }
}

/// Nothing is open at the start of a configuration.
pub open spec fn nothing_open() -> OpenValue {
    OpenValue { arrays: 0, string: None }
}

/// The `chatgpt_base_url` of a configuration.
pub fn parse_chatgpt_base_url(contents: &str) -> (r: Option<String>)
    ensures
        seen(r) == configured_base(pieces(contents@, '\n'), nothing_open(), false),
{
    let lines = split(contents, '\n');
    let ghost all = views(lines@);
    let mut value = OpenValue { arrays: 0, string: None };
    let mut passed = false;
    let mut i: usize = 0;
    assert(all.skip(0) =~= all);
    while i < lines.len()
        invariant
            all == views(lines@),
            all == pieces(contents@, '\n'),
            i <= lines@.len(),
            configured_base(all, nothing_open(), false) == configured_base(
                all.skip(i as int),
                value,
                passed,
            ),
        decreases lines@.len() - i,
    {
        let raw = lines[i].as_str();
        assert(all.skip(i as int)[0] == raw@);
        assert(all.skip(i as int).skip(1) =~= all.skip(i + 1));
        let line = match split_once(raw, '#') {
            Some((a, _)) => trim(a),
            None => trim(raw),
        };
        let open = value.arrays > 0 || value.string.is_some();
        if !line.is_empty() {
            match split_once(line, '=') {
                None => {
                    if !open {
                        return None;
                    }
                    passed = true;
                },
                Some((key, assigned)) => {
                    if same(trim(key), "chatgpt_base_url") {
                        if passed && open {
                            return None;
                        }
                        return Some(unquote(trim(assigned)).to_owned());
                    }
                },
            }
        }
        value = read_on(raw, value);
        i += 1;
    }
    None
}

/// Whether a base needs the path of the backend added to it.
pub open spec fn lacks_backend(base: Seq<char>, host: Seq<char>) -> bool {
    host.is_prefix_of(base) && !has_part(base, "/backend-api"@)
}

/// A configured base brought into the form that usage is read from.
pub open spec fn usage_base(configured: Option<Seq<char>>) -> Seq<char> {
    let base = without_trailing(
        match configured {
            Some(b) => b,
            None => USAGE_DEFAULT_BASE@,
        },
        '/',
    );
    let base = if lacks_backend(base, "https://chatgpt.com"@) {
        base + "/backend-api"@
    } else {
        base
    };
    if lacks_backend(base, "https://chat.openai.com"@) {
        base + "/backend-api"@
    } else {
        base
    }
}

/// The address that usage is read from.
pub open spec fn usage_address(configured: Option<Seq<char>>) -> Seq<char> {
    let base = usage_base(configured);
    base + (if has_part(base, "/backend-api"@) {
        "/wham/usage"@
    } else {
        "/api/codex/usage"@
    })
}

/// The address that usage is read from, given the contents of the account's configuration.
pub fn resolve_usage_url(config: Option<&str>) -> (r: String)
    ensures
        r@ == usage_address(
            match config {
                Some(contents) => configured_base(pieces(contents@, '\n'), nothing_open(), false),
                None => None,
            },
        ),
{
    let configured = match config {
        Some(contents) => parse_chatgpt_base_url(contents),
        None => None,
    };
    let base = match configured {
        Some(b) => b,
        None => USAGE_DEFAULT_BASE.to_owned(),
    };
    let mut base = trim_trailing(base.as_str(), '/').to_owned();
    if starts_with(base.as_str(), "https://chatgpt.com") && !contains(
        base.as_str(),
        "/backend-api",
    ) {
        base.append("/backend-api");
    }
    if starts_with(base.as_str(), "https://chat.openai.com") && !contains(
        base.as_str(),
        "/backend-api",
    ) {
        base.append("/backend-api");
    }
    if contains(base.as_str(), "/backend-api") {
        base.append("/wham/usage");
    } else {
        base.append("/api/codex/usage");
    }
    base
}

/// On the provider's own hosts usage is always read through the backend.
pub proof fn own_hosts_use_the_backend(configured: Option<Seq<char>>)
    requires
        "https://chatgpt.com"@.is_prefix_of(usage_base(configured))
            || "https://chat.openai.com"@.is_prefix_of(usage_base(configured)),
    ensures
        has_part(usage_base(configured), "/backend-api"@),
        usage_address(configured) == usage_base(configured) + "/wham/usage"@,
{
    let b0 = without_trailing(
        match configured {
            Some(b) => b,
            None => USAGE_DEFAULT_BASE@,
        },
        '/',
    );
    let tail = "/backend-api"@;
    let b1 = b0 + tail;
    assert(b1.subrange(b0.len() as int, (b0.len() + tail.len()) as int) =~= tail);
    assert(has_at(b1, tail, b0.len() as int));
    let host1 = "https://chatgpt.com"@;
    let host2 = "https://chat.openai.com"@;
    assert(host1.is_prefix_of(b0) ==> host1.is_prefix_of(b1));
}

/// The window that an object describes.
pub open spec fn window_in(m: Map<Seq<char>, JsonValue>) -> UsageWindowSnapshot {
    UsageWindowSnapshot {
        used_percent: Quantity {
            scaled: match member(m, "used_percent"@) {
                Some(v) => match as_scaled(v) {
                    Some(n) => n as i128,
                    None => 0,
                },
                None => 0,
            },
        },
        reset_at: match member(m, "reset_at"@) {
            Some(v) => match as_integer(v) {
                Some(secs) => if FIRST_SECOND <= secs <= LAST_SECOND {
                    Some(Moment { secs, nanos: 0 })
                } else {
                    None
                },
                None => None,
            },
            None => None,
        },
        limit_window_seconds: match member(m, "limit_window_seconds"@) {
            Some(v) => match as_integer(v) {
                Some(n) => n,
                None => 0,
            },
            None => 0,
        },
    }
}

/// The window that an object describes.
pub fn make_window(window: &JsonObject) -> (r: Option<UsageWindowSnapshot>)
    ensures
        r == Some(window_in(window@)),
        r->Some_0.used_percent.wf(),
{
    let used_percent = match window.get("used_percent") {
        Some(v) => match v.quantity() {
            Some(q) => q,
            None => Quantity { scaled: 0 },
        },
        None => Quantity { scaled: 0 },
    };
    let reset_at = match window.get("reset_at") {
        Some(v) => match v.integer() {
            Some(secs) => moment_of_second(secs),
            None => None,
        },
        None => None,
    };
    let limit_window_seconds: i64 = match window.get("limit_window_seconds") {
        Some(v) => match v.integer() {
            Some(n) => n,
            None => 0,
        },
        None => 0,
    };
    Some(UsageWindowSnapshot::new(used_percent, reset_at, limit_window_seconds))
}

/// Whether the second of two windows goes first: where only it is the session, and, where
/// neither is, where only the first one is the week.
pub open spec fn second_goes_first(first: WindowRole, second: WindowRole) -> bool {
    if first == WindowRole::Session || second == WindowRole::Session {
        first != WindowRole::Session
    } else {
        first == WindowRole::Weekly && second != WindowRole::Weekly
    }
}

/// Two windows with the session first and the week second.
pub open spec fn roles_ordered(
    primary: Option<UsageWindowSnapshot>,
    secondary: Option<UsageWindowSnapshot>,
) -> (Option<UsageWindowSnapshot>, Option<UsageWindowSnapshot>) {
    match (primary, secondary) {
        (Some(p), Some(s)) => if second_goes_first(
            role_of(p.limit_window_seconds),
            role_of(s.limit_window_seconds),
        ) {
            (secondary, primary)
        } else {
            (primary, secondary)
        },
        (Some(w), None) => if role_of(w.limit_window_seconds) == WindowRole::Weekly {
            (None, primary)
        } else {
            (primary, None)
        },
        (None, Some(w)) => if role_of(w.limit_window_seconds) == WindowRole::Weekly {
            (None, secondary)
        } else {
            (secondary, None)
        },
        (None, None) => (None, None),
    }
}

/// Puts the session window first and the weekly window second.
pub fn normalize_window_roles(
    primary: Option<UsageWindowSnapshot>,
    secondary: Option<UsageWindowSnapshot>,
) -> (r: (Option<UsageWindowSnapshot>, Option<UsageWindowSnapshot>))
    ensures
        r == roles_ordered(primary, secondary),
{
    match (primary, secondary) {
        (Some(p), Some(s)) => {
            let pr = p.role();
            let sr = s.role();
            let swap = if pr == WindowRole::Session || sr == WindowRole::Session {
                pr != WindowRole::Session
            } else {
                pr == WindowRole::Weekly && sr != WindowRole::Weekly
            };
            if swap {
                (secondary, primary)
            } else {
                (primary, secondary)
            }
        },
        (Some(w), None) => if w.role() == WindowRole::Weekly {
            (None, primary)
        } else {
            (primary, None)
        },
        (None, Some(w)) => if w.role() == WindowRole::Weekly {
            (None, secondary)
        } else {
            (secondary, None)
        },
        (None, None) => (None, None),
    }
}

/// Whether there is a window, and it has the role.
pub open spec fn has_role(window: Option<UsageWindowSnapshot>, role: WindowRole) -> bool {
    window is Some && role_of(window->Some_0.limit_window_seconds) == role
}

/// Ordering the windows drops none and adds none, and ordering them again changes nothing. A
/// session window stands first. A weekly window stands second, unless it stands beside another
/// one.
pub proof fn roles_are_a_rearrangement(
    primary: Option<UsageWindowSnapshot>,
    secondary: Option<UsageWindowSnapshot>,
)
    ensures
        ({
            let r = roles_ordered(primary, secondary);
            &&& r == (primary, secondary) || r == (secondary, primary)
            &&& roles_ordered(r.0, r.1) == r
            &&& has_role(r.1, WindowRole::Session) ==> has_role(r.0, WindowRole::Session)
            &&& has_role(r.0, WindowRole::Weekly) ==> has_role(r.1, WindowRole::Weekly)
            &&& r.0 is None && r.1 is Some ==> has_role(r.1, WindowRole::Weekly)
        }),
{
}

/// The windows of a `rate_limit` object. Where the limit is reached they are used up.
pub open spec fn windows_in(rate_limit: Option<Map<Seq<char>, JsonValue>>) -> (
    Option<UsageWindowSnapshot>,
    Option<UsageWindowSnapshot>,
) {
    match rate_limit {
        None => (None, None),
        Some(m) => {
            let reached = member(m, "limit_reached"@) == Some(JsonValue::Bool(true));
            roles_ordered(
                limited_window(member_object(m, "primary_window"@), reached),
                limited_window(member_object(m, "secondary_window"@), reached),
            )
        },
    }
}

/// A window, used up where the limit is reached.
pub open spec fn limited_window(
    window: Option<Map<Seq<char>, JsonValue>>,
    reached: bool,
) -> Option<UsageWindowSnapshot> {
    match window {
        None => None,
        Some(w) => Some(
            if reached {
                UsageWindowSnapshot { used_percent: Quantity { scaled: WHOLE }, ..window_in(w) }
            } else {
                window_in(w)
            },
        ),
    }
}

fn make_limited_window(window: Option<&JsonObject>, reached: bool) -> (r: Option<
    UsageWindowSnapshot,
>)
    ensures
        r == limited_window(
            match window {
                Some(o) => Some(o@),
                None => None,
            },
            reached,
        ),
        r matches Some(w) ==> w.used_percent.wf(),
{
    match window {
        None => None,
        Some(o) => match make_window(o) {
            Some(w) => {
                let mut w = w;
                if reached {
                    w.used_percent = Quantity { scaled: WHOLE };
                }
                Some(w)
            },
            None => None,
        },
    }
}

/// The windows of a `rate_limit` object.
pub fn make_normalized_windows(rate_limit: Option<&JsonObject>) -> (r: (
    Option<UsageWindowSnapshot>,
    Option<UsageWindowSnapshot>,
))
    ensures
        r == windows_in(
            match rate_limit {
                Some(o) => Some(o@),
                None => None,
            },
        ),
        r.0 matches Some(w) ==> w.used_percent.wf(),
        r.1 matches Some(w) ==> w.used_percent.wf(),
{
    match rate_limit {
        None => (None, None),
        Some(o) => {
            let reached = match o.get("limit_reached") {
                Some(Json::Bool(b)) => *b,
                _ => false,
            };
            normalize_window_roles(
                make_limited_window(o.object("primary_window"), reached),
                make_limited_window(o.object("secondary_window"), reached),
            )
        },
    }
}

/// Where the limit is reached, nothing is left of any window.
pub proof fn reached_limit_leaves_nothing(m: Map<Seq<char>, JsonValue>)
    requires
        member(m, "limit_reached"@) == Some(JsonValue::Bool(true)),
    ensures
        windows_in(Some(m)).0 matches Some(w) ==> w.remaining() == 0,
        windows_in(Some(m)).1 matches Some(w) ==> w.remaining() == 0,
{
}

/// The truth value under `key`.
pub open spec fn member_bool(m: Map<Seq<char>, JsonValue>, key: Seq<char>) -> Option<bool> {
    match member(m, key) {
        Some(v) => as_bool(v),
        None => None,
    }
}

fn bool_at(object: &JsonObject, key: &str) -> (r: Option<bool>)
    ensures
        r == member_bool(object@, key@),
{
    match object.get(key) {
        Some(v) => v.truth(),
        None => None,
    }
}

/// The credits that an object describes.
pub open spec fn credits_in(m: Map<Seq<char>, JsonValue>) -> CreditsBalanceSnapshot {
    CreditsBalanceSnapshot {
        has_credits: member_bool(m, "has_credits"@) == Some(true),
        unlimited: member_bool(m, "unlimited"@) == Some(true),
        balance: match member(m, "balance"@) {
            Some(v) => match as_scaled(v) {
                Some(n) => Some(Quantity { scaled: n as i128 }),
                None => None,
            },
            None => None,
        },
    }
}

/// The credits that an object describes.
pub fn make_credits(credits: &JsonObject) -> (r: CreditsBalanceSnapshot)
    ensures
        r == credits_in(credits@),
        r.balance matches Some(q) ==> q.wf(),
{
    CreditsBalanceSnapshot {
        has_credits: bool_at(credits, "has_credits") == Some(true),
        unlimited: bool_at(credits, "unlimited") == Some(true),
        balance: match credits.get("balance") {
            Some(v) => v.quantity(),
            None => None,
        },
    }
}

/// The snapshot that a usage reply stands for, read at `now` with the given credentials.
pub open spec fn snapshot_in(
    response: JsonValue,
    c: CredentialsView,
    fallback_email: Option<Seq<char>>,
    now: Moment,
) -> SnapshotView {
    let identity = c.identity();
    let rate_limit = lookup_object(response, "rate_limit"@);
    SnapshotView {
        email: either(identity.email, nonblank(fallback_email)),
        provider_account_id: either(identity.provider_account_id, c.account_id),
        plan: either(nonblank(lookup_text(response, "plan_type"@)), identity.plan),
        allowed: match rate_limit {
            Some(m) => member_bool(m, "allowed"@),
            None => None,
        },
        limit_reached: match rate_limit {
            Some(m) => member_bool(m, "limit_reached"@),
            None => None,
        },
        primary_window: windows_in(rate_limit).0,
        secondary_window: windows_in(rate_limit).1,
        credits: match lookup_object(response, "credits"@) {
            Some(m) => Some(credits_in(m)),
            None => None,
        },
        updated_at: now,
    }
}

/// The snapshot that a usage reply stands for.
pub fn usage_snapshot(
    response: &Json,
    credentials: &AuthCredentials,
    fallback_email: Option<&str>,
    now: Moment,
) -> (r: AccountUsageSnapshot)
    ensures
        r@ == snapshot_in(response@, credentials@, glimpsed(fallback_email), now),
        r@.wf(),
{
    let identity = identity_from_credentials(credentials);
    let rate_limit = response.object_at("rate_limit");
    let (primary_window, secondary_window) = make_normalized_windows(rate_limit);
    let credits = match response.object_at("credits") {
        Some(o) => Some(make_credits(o)),
        None => None,
    };
    let email = match identity.email {
        Some(e) => Some(e),
        None => normalize_string(fallback_email),
    };
    let provider_account_id = match identity.provider_account_id {
        Some(id) => Some(id),
        None => copy_text(&credentials.account_id),
    };
    let plan = match normalize_string(response.text_at("plan_type")) {
        Some(p) => Some(p),
        None => identity.plan,
    };
    let (allowed, limit_reached) = match rate_limit {
        Some(o) => (bool_at(o, "allowed"), bool_at(o, "limit_reached")),
        None => (None, None),
    };
    AccountUsageSnapshot {
        email,
        provider_account_id,
        plan,
        allowed,
        limit_reached,
        primary_window,
        secondary_window,
        credits,
        updated_at: now,
    }
}

/// What a usage reply stands for, at `now`.
pub open spec fn usage_outcome(
    c: CredentialsView,
    fallback_email: Option<Seq<char>>,
    reply: Reply,
    now: Moment,
) -> Result<SnapshotView, ApiErrorView> {
    if !is_success(reply.status) {
        Err(ApiErrorView::Message(usage_error(reply.status, reply.status_text@, reply.text@)))
    } else {
        match json_of_bytes(reply.bytes@) {
            None => Err(ApiErrorView::Parse(UNREADABLE_REPLY@)),
            Some(usage) => if usage is Object {
                Ok(snapshot_in(usage, c, fallback_email, now))
            } else {
                Err(ApiErrorView::Parse(UNEXPECTED_REPLY@))
            },
        }
    }
}

/// The snapshot that a usage reply stands for.
pub fn usage_reply(
    credentials: &AuthCredentials,
    fallback_email: Option<&str>,
    reply: &Reply,
    now: Moment,
) -> (r: Result<AccountUsageSnapshot, CodexApiError>)
    ensures
        (match r {
            Ok(s) => Ok::<SnapshotView, ApiErrorView>(s@),
            Err(e) => Err(e@),
        }) == usage_outcome(credentials@, glimpsed(fallback_email), *reply, now),
        r matches Ok(s) ==> s@.wf(),
{
    if let Some(failure) = usage_failure(
        reply.status,
        reply.status_text.as_str(),
        reply.text.as_str(),
    ) {
        return Err(failure);
    }
    let usage = match parse_json_bytes(reply.bytes.as_slice()) {
        Some(usage) => usage,
        None => {
            return Err(CodexApiError::Parse(UNREADABLE_REPLY.to_owned()));
        },
    };
    match check_usage_reply(&usage) {
        Ok(()) => Ok(usage_snapshot(&usage, credentials, fallback_email, now)),
        Err(e) => Err(e),
    }
}

/// Two quantities less than a thousandth apart.
pub open spec fn close(a: Quantity, b: Quantity) -> bool {
    -THOUSANDTH < rounded(a.scaled - b.scaled) < THOUSANDTH
}

/// Two resets at most a second apart, fractions of a second aside; or none on both sides.
pub open spec fn resets_agree(a: Option<Moment>, b: Option<Moment>) -> bool {
    match (a, b) {
        (None, None) => true,
        (Some(x), Some(y)) => -2_000_000_000 < x.since(y) < 2_000_000_000,
        _ => false,
    }
}

/// Two windows that say the same.
pub open spec fn windows_agree(
    a: Option<UsageWindowSnapshot>,
    b: Option<UsageWindowSnapshot>,
) -> bool {
    match (a, b) {
        (None, None) => true,
        (Some(l), Some(r)) => l.limit_window_seconds == r.limit_window_seconds && resets_agree(
            l.reset_at,
            r.reset_at,
        ) && close(l.used_percent, r.used_percent),
        _ => false,
    }
}

/// Two credit balances that say the same.
pub open spec fn credits_agree(
    a: Option<CreditsBalanceSnapshot>,
    b: Option<CreditsBalanceSnapshot>,
) -> bool {
    match (a, b) {
        (None, None) => true,
        (Some(l), Some(r)) => l.has_credits == r.has_credits && l.unlimited == r.unlimited && (
        match (l.balance, r.balance) {
            (None, None) => true,
            (Some(x), Some(y)) => close(x, y),
            _ => false,
        }),
        _ => false,
    }
}

pub open spec fn lowered(email: Option<Seq<char>>) -> Option<Seq<char>> {
    match email {
        Some(e) => Some(lowercase(e)),
        None => None,
    }
}

impl SnapshotView {
    /// Two snapshots that say the same of one account.
    pub open spec fn equivalent(self, other: SnapshotView) -> bool {
        &&& lowered(self.email) == lowered(other.email)
        &&& self.provider_account_id == other.provider_account_id
        &&& self.plan == other.plan
        &&& self.allowed == other.allowed
        &&& self.limit_reached == other.limit_reached
        &&& windows_agree(self.primary_window, other.primary_window)
        &&& windows_agree(self.secondary_window, other.secondary_window)
        &&& credits_agree(self.credits, other.credits)
    }
}

fn quantities_close(a: Quantity, b: Quantity) -> (r: bool)
    requires
        a.wf(),
        b.wf(),
    ensures
        r == close(a, b),
{
    let d: i128 = a.scaled / 2 - b.scaled / 2;
    if d > THOUSANDTH || d < -THOUSANDTH {
        proof {
            let apart = a.scaled - b.scaled;
            rounding_leaves_half(
                (if apart < 0 {
                    -apart
                } else {
                    apart
                }) as nat,
            );
        }
        return false;
    }
    let d: i128 = round_double(a.scaled - b.scaled);
    -THOUSANDTH < d && d < THOUSANDTH
}

fn windows_equivalent(
    left: &Option<UsageWindowSnapshot>,
    right: &Option<UsageWindowSnapshot>,
) -> (r: bool)
    requires
        left matches Some(w) ==> w.used_percent.wf(),
        right matches Some(w) ==> w.used_percent.wf(),
    ensures
        r == windows_agree(*left, *right),
{
    match (left, right) {
        (None, None) => true,
        (Some(l), Some(r)) => {
            let resets = match (l.reset_at, r.reset_at) {
                (None, None) => true,
                (Some(a), Some(b)) => {
                    let d: i128 = a.nanos_since(b);
                    -2_000_000_000 < d && d < 2_000_000_000
                },
                _ => false,
            };
            l.limit_window_seconds == r.limit_window_seconds && resets && quantities_close(
                l.used_percent,
                r.used_percent,
            )
        },
        _ => false,
    }
}

fn credits_equivalent(
    left: &Option<CreditsBalanceSnapshot>,
    right: &Option<CreditsBalanceSnapshot>,
) -> (r: bool)
    requires
        left matches Some(c) ==> c.balance matches Some(q) ==> q.wf(),
        right matches Some(c) ==> c.balance matches Some(q) ==> q.wf(),
    ensures
        r == credits_agree(*left, *right),
{
    match (left, right) {
        (None, None) => true,
        (Some(l), Some(r)) => {
            let balances = match (l.balance, r.balance) {
                (None, None) => true,
                (Some(a), Some(b)) => quantities_close(a, b),
                _ => false,
            };
            l.has_credits == r.has_credits && l.unlimited == r.unlimited && balances
        },
        _ => false,
    }
}

fn lower_option(o: &Option<String>) -> (r: Option<String>)
    ensures
        seen(r) == lowered(seen(*o)),
{
    match o {
        Some(s) => Some(to_lowercase(s.as_str())),
        None => None,
    }
}

/// Whether two snapshots say the same of one account.
pub fn is_equivalent(left: &AccountUsageSnapshot, right: &AccountUsageSnapshot) -> (r: bool)
    requires
        left@.wf(),
        right@.wf(),
    ensures
        r == left@.equivalent(right@),
{
    same_option(&lower_option(&left.email), &lower_option(&right.email)) && same_option(
        &left.provider_account_id,
        &right.provider_account_id,
    ) && same_option(&left.plan, &right.plan) && left.allowed == right.allowed && left.limit_reached
        == right.limit_reached && windows_equivalent(&left.primary_window, &right.primary_window)
        && windows_equivalent(&left.secondary_window, &right.secondary_window)
        && credits_equivalent(&left.credits, &right.credits)
}

proof fn lemma_close(a: Quantity, b: Quantity)
    ensures
        close(a, a),
        close(a, b) == close(b, a),
{
    rounding_takes_no_side(0);
    rounding_takes_no_side(a.scaled - b.scaled);
    assert(b.scaled - a.scaled == -(a.scaled - b.scaled));
}

proof fn lemma_resets_agree(a: Option<Moment>, b: Option<Moment>)
    ensures
        resets_agree(a, a),
        resets_agree(a, b) == resets_agree(b, a),
{
    if let Some(x) = a {
        time_back_is_the_same(x, x);
        if let Some(y) = b {
            time_back_is_the_same(x, y);
        }
    }
}

proof fn lemma_windows_agree(a: Option<UsageWindowSnapshot>, b: Option<UsageWindowSnapshot>)
    ensures
        windows_agree(a, a),
        windows_agree(a, b) == windows_agree(b, a),
{
    if let Some(l) = a {
        lemma_resets_agree(l.reset_at, l.reset_at);
        lemma_close(l.used_percent, l.used_percent);
        if let Some(r) = b {
            lemma_resets_agree(l.reset_at, r.reset_at);
            lemma_close(l.used_percent, r.used_percent);
        }
    }
}

proof fn lemma_credits_agree(a: Option<CreditsBalanceSnapshot>, b: Option<CreditsBalanceSnapshot>)
    ensures
        credits_agree(a, a),
        credits_agree(a, b) == credits_agree(b, a),
{
    if let Some(l) = a {
        if let Some(x) = l.balance {
            lemma_close(x, x);
            if let Some(r) = b {
                if let Some(y) = r.balance {
                    lemma_close(x, y);
                }
            }
        }
    }
}

/// A snapshot is equivalent to itself, and equivalence goes both ways.
pub proof fn equivalence_is_reflexive_and_symmetric(a: SnapshotView, b: SnapshotView)
    ensures
        a.equivalent(a),
        a.equivalent(b) == b.equivalent(a),
{
    lemma_windows_agree(a.primary_window, b.primary_window);
    lemma_windows_agree(a.secondary_window, b.secondary_window);
    lemma_credits_agree(a.credits, b.credits);
}

/// How far a verified read has come.
pub enum VerifiedRead {
    /// Nothing was read yet.
    Start,
    /// One snapshot was read.
    Once(AccountUsageSnapshot),
    /// Two snapshots were read, and they differ.
    Twice(AccountUsageSnapshot, AccountUsageSnapshot),
}

/// What a verified read does next.
pub enum VerifiedStep {
    /// Read once more.
    Read(VerifiedRead),
    /// Hand this out.
    Done(Result<AccountUsageSnapshot, CodexApiError>),
}

impl VerifiedRead {
    pub open spec fn wf(self) -> bool {
        match self {
            VerifiedRead::Start => true,
            VerifiedRead::Once(a) => a@.wf(),
            VerifiedRead::Twice(a, b) => a@.wf() && b@.wf(),
        }
    }

    /// How many snapshots were read.
    pub open spec fn reads(self) -> nat {
        match self {
            VerifiedRead::Start => 0,
            VerifiedRead::Once(_) => 1,
            VerifiedRead::Twice(_, _) => 2,
        }
    }
}

/// The message for reads of which no two agree.
pub const INCONSISTENT_READS: &'static str = "Live API responses were inconsistent. The data could not be verified.";

/// Takes the next read of a verified read into account. The first two that agree end it; the
/// later of them is handed out. A failed read ends it at once, and so does a third read that
/// agrees with neither of the others.
pub fn verified_step(state: VerifiedRead, read: Result<AccountUsageSnapshot, CodexApiError>) -> (r:
    VerifiedStep)
    requires
        state.wf(),
        read matches Ok(s) ==> s@.wf(),
    ensures
        match read {
            Err(e) => r == VerifiedStep::Done(Err(e)),
            Ok(s) => match state {
                VerifiedRead::Start => r == VerifiedStep::Read(VerifiedRead::Once(s)),
                VerifiedRead::Once(first) => if first@.equivalent(s@) {
                    r == VerifiedStep::Done(Ok(s))
                } else {
                    r == VerifiedStep::Read(VerifiedRead::Twice(first, s))
                },
                VerifiedRead::Twice(first, second) => if first@.equivalent(s@) || second@.equivalent(
                    s@,
                ) {
                    r == VerifiedStep::Done(Ok(s))
                } else {
                    &&& r matches VerifiedStep::Done(Err(e))
                    &&& e@ == ApiErrorView::Message(INCONSISTENT_READS@)
                },
            },
        },
        r matches VerifiedStep::Read(next) ==> next.wf() && next.reads() == state.reads() + 1,
{
    let snapshot = match read {
        Ok(s) => s,
        Err(e) => {
            return VerifiedStep::Done(Err(e));
        },
    };
    match state {
        VerifiedRead::Start => VerifiedStep::Read(VerifiedRead::Once(snapshot)),
        VerifiedRead::Once(first) => if is_equivalent(&first, &snapshot) {
            VerifiedStep::Done(Ok(snapshot))
        } else {
            VerifiedStep::Read(VerifiedRead::Twice(first, snapshot))
        },
        VerifiedRead::Twice(first, second) => if is_equivalent(&first, &snapshot) || is_equivalent(
            &second,
            &snapshot,
        ) {
            VerifiedStep::Done(Ok(snapshot))
        } else {
            VerifiedStep::Done(Err(CodexApiError::Message(INCONSISTENT_READS.to_owned())))
        },
    }
}

/// How far the fetch of one account has come.
#[derive(Clone, Copy, Debug, PartialEq, Eq, Structural)]
pub enum FetchStage {
    /// A refresh was asked for before the first fetch.
    EarlyRefresh,
    /// The first fetch was asked for.
    FirstFetch,
    /// A refresh was asked for after the first fetch was not let through.
    LateRefresh,
    /// The second fetch was asked for.
    SecondFetch,
}

/// What the last step of a fetch came to.
#[derive(Clone, Copy, Debug, PartialEq, Eq, Structural)]
pub enum FetchEvent {
    /// New credentials came.
    Refreshed,
    /// No new credentials came.
    RefreshFailed,
    /// The fetch came to a result: `unauthorized` where it was not let through.
    Fetched { unauthorized: bool },
}

/// What a fetch does next.
#[derive(Clone, Copy, Debug, PartialEq, Eq, Structural)]
pub enum FetchCommand {
    /// Ask for new credentials.
    Refresh,
    /// Save the new credentials and fetch with them.
    SaveAndFetch,
    /// Fetch with the credentials at hand.
    Fetch,
    /// Hand out the result of the last fetch.
    Finish,
}

/// The first step of a fetch: a refresh where one is due and possible.
pub fn fetch_start(credentials: &AuthCredentials, now: Moment) -> (r: (FetchStage, FetchCommand))
    ensures
        r == (if credentials@.stale(now) && credentials@.refresh_token.len() > 0 {
            (FetchStage::EarlyRefresh, FetchCommand::Refresh)
        } else {
            (FetchStage::FirstFetch, FetchCommand::Fetch)
        }),
{
    if credentials.needs_refresh_at(now) && !credentials.refresh_token.as_str().is_empty() {
        (FetchStage::EarlyRefresh, FetchCommand::Refresh)
    } else {
        (FetchStage::FirstFetch, FetchCommand::Fetch)
    }
}

/// What follows on an event. `has_refresh_token` says whether the credentials at hand can be
/// refreshed.
pub open spec fn fetch_next(stage: FetchStage, event: FetchEvent, has_refresh_token: bool) -> (
    FetchStage,
    FetchCommand,
) {
    match (stage, event) {
        (FetchStage::EarlyRefresh, FetchEvent::Refreshed) => (
            FetchStage::FirstFetch,
            FetchCommand::SaveAndFetch,
        ),
        (FetchStage::EarlyRefresh, _) => (FetchStage::FirstFetch, FetchCommand::Fetch),
        (FetchStage::FirstFetch, FetchEvent::Fetched { unauthorized }) => if unauthorized
            && has_refresh_token {
            (FetchStage::LateRefresh, FetchCommand::Refresh)
        } else {
            (FetchStage::SecondFetch, FetchCommand::Finish)
        },
        (FetchStage::LateRefresh, FetchEvent::Refreshed) => (
            FetchStage::SecondFetch,
            FetchCommand::SaveAndFetch,
        ),
        _ => (FetchStage::SecondFetch, FetchCommand::Finish),
    }
}

/// Takes the next step of a fetch.
pub fn fetch_step(stage: FetchStage, event: FetchEvent, has_refresh_token: bool) -> (r: (
    FetchStage,
    FetchCommand,
))
    ensures
        r == fetch_next(stage, event, has_refresh_token),
{
    match (stage, event) {
        (FetchStage::EarlyRefresh, FetchEvent::Refreshed) => (
            FetchStage::FirstFetch,
            FetchCommand::SaveAndFetch,
        ),
        (FetchStage::EarlyRefresh, _) => (FetchStage::FirstFetch, FetchCommand::Fetch),
        (FetchStage::FirstFetch, FetchEvent::Fetched { unauthorized }) => if unauthorized
            && has_refresh_token {
            (FetchStage::LateRefresh, FetchCommand::Refresh)
        } else {
            (FetchStage::SecondFetch, FetchCommand::Finish)
        },
        (FetchStage::LateRefresh, FetchEvent::Refreshed) => (
            FetchStage::SecondFetch,
            FetchCommand::SaveAndFetch,
        ),
        _ => (FetchStage::SecondFetch, FetchCommand::Finish),
    }
}

/// Whether a fetch was not let through.
pub fn is_unauthorized(result: &Result<AccountUsageSnapshot, CodexApiError>) -> (r: bool)
    ensures
        r == (result matches Err(e) && e@ == ApiErrorView::Message(UNAUTHORIZED_MESSAGE@)),
{
    match result {
        Err(CodexApiError::Message(m)) => same(m.as_str(), UNAUTHORIZED_MESSAGE),
        _ => false,
    }
}

/// The steps that are still ahead of a fetch, at most.
pub open spec fn steps_ahead(stage: FetchStage) -> nat {
    match stage {
        FetchStage::EarlyRefresh => 4,
        FetchStage::FirstFetch => 3,
        FetchStage::LateRefresh => 2,
        FetchStage::SecondFetch => 1,
    }
}

/// A fetch ends: every step that does not finish it brings it nearer to its end. A fetch that
/// was let through, or cannot be refreshed, is not repeated.
pub proof fn fetch_ends(stage: FetchStage, event: FetchEvent, has_refresh_token: bool)
    ensures
        fetch_next(stage, event, has_refresh_token).1 != FetchCommand::Finish ==> steps_ahead(
            fetch_next(stage, event, has_refresh_token).0,
        ) < steps_ahead(stage),
        stage == FetchStage::SecondFetch ==> fetch_next(stage, event, has_refresh_token).1
            == FetchCommand::Finish,
        fetch_next(FetchStage::FirstFetch, FetchEvent::Fetched { unauthorized: false }, true).1
            == FetchCommand::Finish,
        fetch_next(FetchStage::FirstFetch, FetchEvent::Fetched { unauthorized: true }, false).1
            == FetchCommand::Finish,
{
}

/// Of the reading of a text alone: what counts of it is what is left without white space at its
/// ends.
pub open spec fn tells(m: Map<Seq<char>, JsonValue>, key: Seq<char>, t: Seq<char>) -> bool {
    exists|raw: Seq<char>|
        #![trigger trimmed(raw)]
        m.dom().contains(key) && m[key] == JsonValue::Text(raw) && trimmed(raw) == t && t.len() > 0
}

/// Whether an object tells nothing under a key: no text, or a blank one.
pub open spec fn tells_nothing(m: Map<Seq<char>, JsonValue>, key: Seq<char>) -> bool {
    !m.dom().contains(key) || m[key] !is Text || trimmed(m[key]->Text_0).len() == 0
}

/// A token is taken apart at its dots: what is decoded is its second part, filled up with `=` to a
/// multiple of four. A token without a dot has no such part.
pub proof fn the_second_part_of_a_token_is_read(head: Seq<char>, body: Seq<char>, tail: Seq<char>)
    requires
        !head.contains('.'),
        !body.contains('.'),
    ensures
        token_payload(head) is None,
        token_payload(head + seq!['.'] + body) == Some(padded(encode_utf8(body))),
        token_payload(head + seq!['.'] + body + seq!['.'] + tail) == Some(
            padded(encode_utf8(body)),
        ),
{
    lemma_no_char(head, '.', 0);
    let dotted = head + seq!['.'] + body;
    lemma_char_from(dotted, '.', 0, head.len() as int);
    assert(dotted.skip(head.len() as int + 1) =~= body);
    lemma_no_char(body, '.', 0);
    assert(pieces(body, '.') =~= seq![body]);
    assert(pieces(dotted, '.')[1] == body);
    let whole = dotted + seq!['.'] + tail;
    lemma_char_from(whole, '.', 0, head.len() as int);
    let rest = whole.skip(head.len() as int + 1);
    assert(rest =~= body + seq!['.'] + tail);
    lemma_char_from(rest, '.', 0, body.len() as int);
    assert(rest.take(body.len() as int) =~= body);
    assert(pieces(rest, '.')[0] == body);
}

/// What is decoded begins with the bytes that are given, and only `=` follows, to the next multiple
/// of four.
pub proof fn padding_fills_up_to_four(bytes: Seq<u8>)
    ensures
        padded(bytes).take(bytes.len() as int) == bytes,
        padded(bytes).len() % 4 == 0,
        padded(bytes).len() < bytes.len() + 4,
        forall|i: int| bytes.len() <= i < padded(bytes).len() ==> #[trigger] padded(bytes)[i] == 0x3d,
{
    assert(padded(bytes).take(bytes.len() as int) =~= bytes);
}

/// An identity is that of the claims: the address at the top goes before the one in the profile,
/// the subject is that at the top, the plan and the account id of the provider's own claim go
/// before those at the top, and the account id of the credentials goes before both. Blank texts
/// count for nothing.
pub proof fn an_identity_is_what_the_claims_say(
    account_id: Option<Seq<char>>,
    payload: Map<Seq<char>, JsonValue>,
    auth: Map<Seq<char>, JsonValue>,
    profile: Map<Seq<char>, JsonValue>,
    t: Seq<char>,
)
    requires
        says(payload, "https://api.openai.com/auth"@, JsonValue::Object(auth)),
        says(payload, "https://api.openai.com/profile"@, JsonValue::Object(profile)),
    ensures
        ({
            let who = identity_of(account_id, payload);
            &&& tells(payload, "email"@, t) ==> who.email == Some(t)
            &&& tells_nothing(payload, "email"@) && tells(profile, "email"@, t) ==> who.email
                == Some(t)
            &&& tells_nothing(payload, "email"@) && tells_nothing(profile, "email"@)
                ==> who.email is None
            &&& tells(payload, "sub"@, t) ==> who.auth_subject == Some(t)
            &&& tells_nothing(payload, "sub"@) ==> who.auth_subject is None
            &&& tells(auth, "chatgpt_plan_type"@, t) ==> who.plan == Some(t)
            &&& tells_nothing(auth, "chatgpt_plan_type"@) && tells(
                payload,
                "chatgpt_plan_type"@,
                t,
            ) ==> who.plan == Some(t)
            &&& account_id is Some && trimmed(account_id->Some_0).len() > 0
                ==> who.provider_account_id == Some(trimmed(account_id->Some_0))
            &&& account_id is None && tells(auth, "chatgpt_account_id"@, t)
                ==> who.provider_account_id == Some(t)
            &&& account_id is None && tells_nothing(auth, "chatgpt_account_id"@) && tells(
                payload,
                "chatgpt_account_id"@,
                t,
            ) ==> who.provider_account_id == Some(t)
        }),
{
}

/// Without claims of the provider's own, the top of the claims alone is read, and no account id is
/// taken from a token.
pub proof fn an_identity_without_own_claims_is_that_at_the_top(
    payload: Map<Seq<char>, JsonValue>,
    t: Seq<char>,
)
    requires
        !payload.dom().contains("https://api.openai.com/auth"@),
        !payload.dom().contains("https://api.openai.com/profile"@),
    ensures
        tells(payload, "email"@, t) ==> identity_of(None, payload).email == Some(t),
        tells(payload, "chatgpt_plan_type"@, t) ==> identity_of(None, payload).plan == Some(t),
        tells(payload, "chatgpt_account_id"@, t) ==> identity_of(None, payload).provider_account_id
            == Some(t),
        claimed_account_id(payload) is None,
        identity_of(None, Map::empty()) == (IdentityView {
            email: None,
            auth_subject: None,
            plan: None,
            provider_account_id: None,
        }),
{
}

/// The account id that a token claims is the one in the provider's own claim, else the one at the
/// top.
pub proof fn a_claimed_account_id_is_the_providers_first(
    payload: Map<Seq<char>, JsonValue>,
    auth: Map<Seq<char>, JsonValue>,
    t: Seq<char>,
)
    requires
        says(payload, "https://api.openai.com/auth"@, JsonValue::Object(auth)),
    ensures
        tells(auth, "chatgpt_account_id"@, t) ==> claimed_account_id(payload) == Some(t),
        tells_nothing(auth, "chatgpt_account_id"@) && tells(payload, "chatgpt_account_id"@, t)
            ==> claimed_account_id(payload) == Some(t),
        tells_nothing(auth, "chatgpt_account_id"@) && tells_nothing(payload, "chatgpt_account_id"@)
            ==> claimed_account_id(payload) is None,
{
}

/// An API key goes before the tokens, and nothing but it is then known.
pub proof fn an_api_key_goes_before_tokens(m: Map<Seq<char>, JsonValue>, key: Seq<char>)
    requires
        tells(m, "OPENAI_API_KEY"@, key),
    ensures
        credentials_in(JsonValue::Object(m)) == Ok::<CredentialsView, ApiErrorView>(
            CredentialsView {
                access_token: key,
                refresh_token: Seq::empty(),
                id_token: None,
                account_id: None,
                last_refresh: None,
            },
        ),
{
}

/// Without an API key the credentials are the tokens, each under its own name.
pub proof fn credentials_are_the_tokens(
    m: Map<Seq<char>, JsonValue>,
    tokens: Map<Seq<char>, JsonValue>,
    t: Seq<char>,
)
    requires
        tells_nothing(m, "OPENAI_API_KEY"@),
        says(m, "tokens"@, JsonValue::Object(tokens)),
    ensures
        says(tokens, "access_token"@, JsonValue::Text(t)) && t.len() > 0 ==> {
            let r = credentials_in(JsonValue::Object(m));
            &&& r is Ok
            &&& r->Ok_0.access_token == t
            &&& !tokens.dom().contains("refresh_token"@) ==> r->Ok_0.refresh_token.len() == 0
            &&& forall|x: Seq<char>|
                #[trigger] says(tokens, "refresh_token"@, JsonValue::Text(x))
                    ==> r->Ok_0.refresh_token == x
            &&& forall|x: Seq<char>|
                #[trigger] says(tokens, "id_token"@, JsonValue::Text(x)) ==> r->Ok_0.id_token
                    == Some(x)
            &&& forall|x: Seq<char>|
                #[trigger] says(tokens, "account_id"@, JsonValue::Text(x)) && x.len() > 0
                    ==> r->Ok_0.account_id == Some(x)
            &&& !tokens.dom().contains("id_token"@) ==> r->Ok_0.id_token is None
            &&& !tokens.dom().contains("account_id"@) && !tokens.dom().contains("id_token"@)
                ==> r->Ok_0.account_id is None
            &&& !m.dom().contains("last_refresh"@) ==> r->Ok_0.last_refresh is None
        },
        !tokens.dom().contains("access_token"@) ==> credentials_in(JsonValue::Object(m)) is Err,
        says(tokens, "access_token"@, JsonValue::Text(Seq::empty())) ==> credentials_in(
            JsonValue::Object(m),
        ) is Err,
{
}

/// A document without an API key and without tokens holds no credentials, and neither does one that
/// is no object.
pub proof fn no_credentials_without_tokens(v: JsonValue)
    requires
        v matches JsonValue::Object(m) ==> tells_nothing(m, "OPENAI_API_KEY"@) && !m.dom().contains(
            "tokens"@,
        ),
    ensures
        credentials_in(v) is Err,
{
}

/// What a document holds under `last_refresh` is the time of the last refresh.
pub proof fn the_last_refresh_is_read(
    m: Map<Seq<char>, JsonValue>,
    tokens: Map<Seq<char>, JsonValue>,
    token: Seq<char>,
    written: Seq<char>,
)
    requires
        tells_nothing(m, "OPENAI_API_KEY"@),
        says(m, "tokens"@, JsonValue::Object(tokens)),
        says(tokens, "access_token"@, JsonValue::Text(token)),
        token.len() > 0,
        says(m, "last_refresh"@, JsonValue::Text(written)),
        written.len() > 0,
        !is_white(written[0]),
        written.last() == 'Z',
    ensures
        credentials_in(JsonValue::Object(m))->Ok_0.last_refresh == rfc3339_moment(written),
{
    lemma_trimmed_alone(written);
}

/// Credentials that are put into a document stand there under their own names: the tokens in an
/// object of their own, which holds nothing else, and the time of the refresh beside it.
pub proof fn credentials_are_put_under_their_names(
    m: Map<Seq<char>, JsonValue>,
    c: CredentialsView,
    refreshed: Seq<char>,
    key: Seq<char>,
)
    ensures
        ({
            let after = with_credentials(JsonValue::Object(m), c, refreshed);
            let tokens = after->Object_0["tokens"@]->Object_0;
            &&& after is Object
            &&& says(after->Object_0, "last_refresh"@, JsonValue::Text(refreshed))
            &&& says(after->Object_0, "tokens"@, JsonValue::Object(tokens))
            &&& says(tokens, "access_token"@, JsonValue::Text(c.access_token))
            &&& says(tokens, "refresh_token"@, JsonValue::Text(c.refresh_token))
            &&& match c.id_token {
                Some(t) => says(tokens, "id_token"@, JsonValue::Text(t)),
                None => !tokens.dom().contains("id_token"@),
            }
            &&& match c.account_id {
                Some(t) => says(tokens, "account_id"@, JsonValue::Text(t)),
                None => !tokens.dom().contains("account_id"@),
            }
            &&& key != "access_token"@ && key != "refresh_token"@ && key != "id_token"@ && key
                != "account_id"@ ==> !tokens.dom().contains(key)
        }),
        with_credentials(JsonValue::Null, c, refreshed) == JsonValue::Null,
{
    reveal_credential_keys();
}

proof fn reveal_credential_keys()
    ensures
        "tokens"@.len() == 6,
        "last_refresh"@.len() == 12,
        "access_token"@.len() == 12,
        "refresh_token"@.len() == 13,
        "id_token"@.len() == 8,
        "account_id"@.len() == 10,
        "client_id"@.len() == 9,
        "grant_type"@.len() == 10,
        "scope"@.len() == 5,
{
    reveal_strlit("tokens");
    reveal_strlit("last_refresh");
    reveal_strlit("access_token");
    reveal_strlit("refresh_token");
    reveal_strlit("id_token");
    reveal_strlit("account_id");
    reveal_strlit("client_id");
    reveal_strlit("grant_type");
    reveal_strlit("scope");
}

/// A refresh request hands over the refresh token of the credentials, under the application's own
/// identifier, and nothing of their other tokens.
pub proof fn a_refresh_request_names_its_token(token: Seq<char>, key: Seq<char>)
    ensures
        says(refresh_members(token), "refresh_token"@, JsonValue::Text(token)),
        says(refresh_members(token), "grant_type"@, JsonValue::Text("refresh_token"@)),
        says(refresh_members(token), "client_id"@, JsonValue::Text("app_EMoamEEZ73f0CkXaXp7hrann"@)),
        says(refresh_members(token), "scope"@, JsonValue::Text("openid profile email"@)),
        refresh_members(token).dom().contains(key) ==> key == "refresh_token"@ || key
            == "grant_type"@ || key == "client_id"@ || key == "scope"@,
{
    reveal_credential_keys();
}

/// The error code of a reply is the code of its error, an error that is a text itself, or else the
/// code at its top.
pub proof fn an_error_code_is_found_where_it_stands(
    m: Map<Seq<char>, JsonValue>,
    error: Map<Seq<char>, JsonValue>,
    code: Seq<char>,
)
    ensures
        says(m, "error"@, JsonValue::Object(error)) && says(error, "code"@, JsonValue::Text(code))
            ==> error_code(JsonValue::Object(m)) == code,
        says(m, "error"@, JsonValue::Object(error)) && !error.dom().contains("code"@) ==> error_code(
            JsonValue::Object(m),
        ).len() == 0,
        says(m, "error"@, JsonValue::Text(code)) ==> error_code(JsonValue::Object(m)) == code,
        !m.dom().contains("error"@) && says(m, "code"@, JsonValue::Text(code)) ==> error_code(
            JsonValue::Object(m),
        ) == code,
        !m.dom().contains("error"@) && !m.dom().contains("code"@) ==> error_code(
            JsonValue::Object(m),
        ).len() == 0,
{
}

/// After a refresh the credentials have the tokens that the reply holds, and where it holds none, or
/// an empty one, the token that they had. The account id stays, and one is taken from a new token
/// only where there was none.
pub proof fn refreshed_tokens_are_those_of_the_reply(
    c: CredentialsView,
    m: Map<Seq<char>, JsonValue>,
    now: Moment,
    t: Seq<char>,
)
    ensures
        ({
            let r = refreshed_with(c, JsonValue::Object(m), now);
            &&& says(m, "access_token"@, JsonValue::Text(t)) && t.len() > 0 ==> r.access_token == t
            &&& says(m, "refresh_token"@, JsonValue::Text(t)) && t.len() > 0 ==> r.refresh_token
                == t
            &&& says(m, "id_token"@, JsonValue::Text(t)) && t.len() > 0 ==> r.id_token == Some(t)
            &&& holds_no_text(m, "access_token"@) ==> r.access_token == c.access_token
            &&& holds_no_text(m, "refresh_token"@) ==> r.refresh_token == c.refresh_token
            &&& holds_no_text(m, "id_token"@) ==> r.id_token == c.id_token
            &&& c.account_id is Some ==> r.account_id == c.account_id
            &&& c.account_id is None && holds_no_text(m, "id_token"@) ==> r.account_id is None
            &&& c.account_id is None && says(m, "id_token"@, JsonValue::Text(t)) && t.len() > 0
                ==> r.account_id == token_account_id(Some(t))
            &&& r.last_refresh == Some(now)
        }),
{
}

/// Whether an object holds no text under a key, or an empty one.
pub open spec fn holds_no_text(m: Map<Seq<char>, JsonValue>, key: Seq<char>) -> bool {
    !m.dom().contains(key) || m[key] !is Text || m[key]->Text_0.len() == 0
}

/// A refresh succeeds exactly where the status is one of success and the body is an object; the
/// credentials are then those that the body leads to.
pub proof fn a_refresh_succeeds_on_an_object(c: CredentialsView, reply: Reply, now: Moment)
    ensures
        refresh_outcome(c, reply, now) is Ok <==> 200 <= reply.status <= 299 && json_of_bytes(
            reply.bytes@,
        ) is Some && json_of_bytes(reply.bytes@)->Some_0 is Object,
        refresh_outcome(c, reply, now) is Ok ==> refresh_outcome(c, reply, now)->Ok_0
            == refreshed_with(c, json_of_bytes(reply.bytes@)->Some_0, now),
{
}

/// A refused refresh is told by its code, and every message asks to sign in again.
pub proof fn refused_refreshes_are_told_apart()
    ensures
        refusal_message("refresh_token_reused"@)
            == "The refresh token can no longer be reused. Sign in again for this account."@,
        refusal_message("refresh_token_invalidated"@)
            == "The refresh token was revoked. Sign in again for this account."@,
        forall|code: Seq<char>|
            code != "refresh_token_reused"@ && code != "refresh_token_invalidated"@
                ==> #[trigger] refusal_message(code)
                == "The refresh token has expired. Sign in again for this account."@,
{
    reveal_strlit("refresh_token_reused");
    reveal_strlit("refresh_token_invalidated");
    assert("refresh_token_reused"@.len() != "refresh_token_invalidated"@.len());
}

/// A usage request carries the access token, and the account id where there is one, and asks for an
/// answer that is not kept from before.
pub proof fn a_usage_request_carries_the_token(token: Seq<char>, account_id: Option<Seq<char>>)
    ensures
        usage_headers(token, account_id).contains(("Authorization"@, "Bearer "@ + token)),
        usage_headers(token, account_id).contains(("Accept"@, "application/json"@)),
        usage_headers(token, account_id).contains(
            ("Cache-Control"@, "no-cache, no-store, max-age=0"@),
        ),
        account_id matches Some(id) ==> usage_headers(token, account_id).contains(
            ("ChatGPT-Account-Id"@, id),
        ),
        usage_headers(token, account_id).len() == (if account_id is Some {
            6int
        } else {
            5int
        }),
{
    let h = usage_headers(token, account_id);
    assert(h[0] == ("Authorization"@, "Bearer "@ + token));
    assert(h[2] == ("Accept"@, "application/json"@));
    assert(h[3] == ("Cache-Control"@, "no-cache, no-store, max-age=0"@));
    if let Some(id) = account_id {
        assert(h[5] == ("ChatGPT-Account-Id"@, id));
    }
}

/// A failed usage request is told by its status, and by what the server said where it said
/// anything; one that was not let through is told as such, whatever the server said.
pub proof fn a_failed_usage_request_is_told(status: u16, status_text: Seq<char>, body: Seq<char>)
    ensures
        status == 401 || status == 403 ==> usage_error(status, status_text, body)
            == "The Codex usage API request returned unauthorized."@,
        status != 401 && status != 403 && trimmed(body).len() == 0 ==> usage_error(
            status,
            status_text,
            body,
        ) == "Codex API error "@ + status_text + "."@,
        status != 401 && status != 403 && trimmed(body).len() > 0 ==> usage_error(
            status,
            status_text,
            body,
        ) == "Codex API error "@ + status_text + ": "@ + trimmed(body),
{
}

/// Usage is read exactly where the status is one of success and the body is an object.
pub proof fn usage_is_read_from_an_object(
    c: CredentialsView,
    fallback_email: Option<Seq<char>>,
    reply: Reply,
    now: Moment,
)
    ensures
        usage_outcome(c, fallback_email, reply, now) is Ok <==> 200 <= reply.status <= 299
            && json_of_bytes(reply.bytes@) is Some && json_of_bytes(reply.bytes@)->Some_0 is Object,
        usage_outcome(c, fallback_email, reply, now) is Ok ==> usage_outcome(
            c,
            fallback_email,
            reply,
            now,
        )->Ok_0 == snapshot_in(json_of_bytes(reply.bytes@)->Some_0, c, fallback_email, now),
{
}

/// A window is what its object says: the length and the share that stand there, and the reset at
/// the second that stands there.
pub proof fn a_window_is_what_its_object_says(w: Map<Seq<char>, JsonValue>, n: i64)
    ensures
        says(w, "limit_window_seconds"@, JsonValue::Signed(n)) ==> window_in(w).limit_window_seconds
            == n,
        says(w, "reset_at"@, JsonValue::Signed(n)) && FIRST_SECOND <= n <= LAST_SECOND ==> window_in(
            w,
        ).reset_at == Some(Moment { secs: n, nanos: 0 }),
        says(w, "used_percent"@, JsonValue::Signed(n)) && -0x20_0000_0000_0000 < n
            < 0x20_0000_0000_0000 ==> window_in(w).used_percent.scaled == n * 0x1_0000_0000_0000_0000,
        forall|bits: u64|
            #[trigger] says(w, "used_percent"@, JsonValue::Double(bits)) && double_scaled(
                bits,
            ) is Some && i128::MIN <= double_scaled(bits)->Some_0 <= i128::MAX ==> window_in(
                w,
            ).used_percent.scaled == double_scaled(bits)->Some_0,
        !w.dom().contains("limit_window_seconds"@) ==> window_in(w).limit_window_seconds == 0,
        !w.dom().contains("reset_at"@) ==> window_in(w).reset_at is None,
        !w.dom().contains("used_percent"@) ==> window_in(w).used_percent.scaled == 0,
{
    if -0x20_0000_0000_0000 < n < 0x20_0000_0000_0000 {
        whole_numbers_stand_for_themselves(n);
    }
}

/// The windows of a reply are the one under `primary_window` and the one under `secondary_window`,
/// in one order or the other: each is there once, and there is none that the reply does not hold.
/// Where the limit is reached their share is a hundred percent, and nothing else of them changes.
pub proof fn windows_are_those_of_the_reply(
    m: Map<Seq<char>, JsonValue>,
    first: Map<Seq<char>, JsonValue>,
    second: Map<Seq<char>, JsonValue>,
)
    ensures
        ({
            let r = windows_in(Some(m));
            let reached = says(m, "limit_reached"@, JsonValue::Bool(true));
            let has_first = says(m, "primary_window"@, JsonValue::Object(first));
            let has_second = says(m, "secondary_window"@, JsonValue::Object(second));
            let no_first = !m.dom().contains("primary_window"@);
            let no_second = !m.dom().contains("secondary_window"@);
            &&& has_first && has_second ==> {
                ||| is_window(r.0, first, reached) && is_window(r.1, second, reached)
                ||| is_window(r.0, second, reached) && is_window(r.1, first, reached)
            }
            &&& has_first && no_second ==> {
                ||| is_window(r.0, first, reached) && r.1 is None
                ||| is_window(r.1, first, reached) && r.0 is None
            }
            &&& no_first && has_second ==> {
                ||| is_window(r.0, second, reached) && r.1 is None
                ||| is_window(r.1, second, reached) && r.0 is None
            }
            &&& no_first && no_second ==> r.0 is None && r.1 is None
        }),
        windows_in(None).0 is None && windows_in(None).1 is None,
{
}

/// Whether a window is the one that an object says, used up where the limit is reached.
pub open spec fn is_window(
    window: Option<UsageWindowSnapshot>,
    w: Map<Seq<char>, JsonValue>,
    reached: bool,
) -> bool {
    &&& window is Some
    &&& window->Some_0.reset_at == window_in(w).reset_at
    &&& window->Some_0.limit_window_seconds == window_in(w).limit_window_seconds
    &&& reached ==> window->Some_0.used_percent.scaled == 100 * 0x1_0000_0000_0000_0000
    &&& !reached ==> window->Some_0.used_percent == window_in(w).used_percent
}

/// The session stands first and the week second, wherever the reply has them: a window of five
/// hours is the first one, and one of seven days beside it, or beside a window of any other length,
/// or alone, is the second one. Any other window alone is the first one.
pub proof fn session_first_and_week_second(
    m: Map<Seq<char>, JsonValue>,
    a: Map<Seq<char>, JsonValue>,
    b: Map<Seq<char>, JsonValue>,
    length: i64,
)
    requires
        says(m, "primary_window"@, JsonValue::Object(a)) && says(
            m,
            "secondary_window"@,
            JsonValue::Object(b),
        ) || says(m, "primary_window"@, JsonValue::Object(b)) && says(
            m,
            "secondary_window"@,
            JsonValue::Object(a),
        ),
        says(a, "limit_window_seconds"@, JsonValue::Signed(18_000)) && says(
            b,
            "limit_window_seconds"@,
            JsonValue::Signed(length),
        ) && length != 18_000 || says(a, "limit_window_seconds"@, JsonValue::Signed(length)) && says(
            b,
            "limit_window_seconds"@,
            JsonValue::Signed(604_800),
        ) && length != 604_800,
    ensures
        is_window(windows_in(Some(m)).0, a, says(m, "limit_reached"@, JsonValue::Bool(true))),
        is_window(windows_in(Some(m)).1, b, says(m, "limit_reached"@, JsonValue::Bool(true))),
{
}

/// A window that stands alone is the second one where it is that of a week, else the first one.
pub proof fn a_window_alone_is_placed_by_its_length(
    m: Map<Seq<char>, JsonValue>,
    a: Map<Seq<char>, JsonValue>,
    length: i64,
)
    requires
        says(m, "primary_window"@, JsonValue::Object(a)) && !m.dom().contains("secondary_window"@)
            || says(m, "secondary_window"@, JsonValue::Object(a)) && !m.dom().contains(
            "primary_window"@,
        ),
        says(a, "limit_window_seconds"@, JsonValue::Signed(length)),
    ensures
        length == 604_800 ==> windows_in(Some(m)).0 is None && windows_in(Some(m)).1 is Some,
        length != 604_800 ==> windows_in(Some(m)).0 is Some && windows_in(Some(m)).1 is None,
{
}

/// Credits are what their object says; what it does not say is not assumed.
pub proof fn credits_are_what_their_object_says(m: Map<Seq<char>, JsonValue>, yes: bool, n: i64)
    ensures
        says(m, "has_credits"@, JsonValue::Bool(yes)) ==> credits_in(m).has_credits == yes,
        says(m, "unlimited"@, JsonValue::Bool(yes)) ==> credits_in(m).unlimited == yes,
        says(m, "balance"@, JsonValue::Signed(n)) && -0x20_0000_0000_0000 < n < 0x20_0000_0000_0000
            ==> credits_in(m).balance is Some && credits_in(m).balance->Some_0.scaled == n
            * 0x1_0000_0000_0000_0000,
        !m.dom().contains("has_credits"@) ==> !credits_in(m).has_credits,
        !m.dom().contains("unlimited"@) ==> !credits_in(m).unlimited,
        !m.dom().contains("balance"@) ==> credits_in(m).balance is None,
{
    if -0x20_0000_0000_0000 < n < 0x20_0000_0000_0000 {
        whole_numbers_stand_for_themselves(n);
    }
}

/// A snapshot is what the reply says, for the account that the credentials belong to: the plan of
/// the reply goes before the one in the credentials, the address in the credentials before the one
/// that is known already.
pub proof fn a_snapshot_is_what_the_reply_says(
    m: Map<Seq<char>, JsonValue>,
    limit: Map<Seq<char>, JsonValue>,
    credits: Map<Seq<char>, JsonValue>,
    c: CredentialsView,
    fallback_email: Option<Seq<char>>,
    now: Moment,
    plan: Seq<char>,
    yes: bool,
)
    requires
        says(m, "rate_limit"@, JsonValue::Object(limit)),
        says(m, "credits"@, JsonValue::Object(credits)),
    ensures
        ({
            let s = snapshot_in(JsonValue::Object(m), c, fallback_email, now);
            &&& s.updated_at == now
            &&& (s.primary_window, s.secondary_window) == windows_in(Some(limit))
            &&& s.credits == Some(credits_in(credits))
            &&& says(limit, "allowed"@, JsonValue::Bool(yes)) ==> s.allowed == Some(yes)
            &&& says(limit, "limit_reached"@, JsonValue::Bool(yes)) ==> s.limit_reached == Some(yes)
            &&& !limit.dom().contains("allowed"@) ==> s.allowed is None
            &&& !limit.dom().contains("limit_reached"@) ==> s.limit_reached is None
            &&& tells(m, "plan_type"@, plan) ==> s.plan == Some(plan)
            &&& tells_nothing(m, "plan_type"@) ==> s.plan == c.identity().plan
            &&& c.identity().email is Some ==> s.email == c.identity().email
            &&& c.identity().email is None && fallback_email is Some && trimmed(
                fallback_email->Some_0,
            ).len() > 0 ==> s.email == Some(trimmed(fallback_email->Some_0))
            &&& c.identity().provider_account_id is Some ==> s.provider_account_id
                == c.identity().provider_account_id
        }),
{
}

/// A reply that says nothing of limits and credits leads to a snapshot without them.
pub proof fn what_a_reply_leaves_out_is_absent(
    m: Map<Seq<char>, JsonValue>,
    c: CredentialsView,
    fallback_email: Option<Seq<char>>,
    now: Moment,
)
    ensures
        ({
            let s = snapshot_in(JsonValue::Object(m), c, fallback_email, now);
            &&& !m.dom().contains("rate_limit"@) ==> s.primary_window is None
                && s.secondary_window is None && s.allowed is None && s.limit_reached is None
            &&& !m.dom().contains("credits"@) ==> s.credits is None
            &&& c.identity().email is None && fallback_email is None ==> s.email is None
        }),
{
}

/// Snapshots that say the same agree in every field: in the address but for capitals, in windows
/// and credits but for what is too small to count. Snapshots that differ in any of them do not say
/// the same.
pub proof fn equivalent_snapshots_agree_in_every_field(a: SnapshotView, b: SnapshotView)
    ensures
        a.equivalent(b) ==> a.provider_account_id == b.provider_account_id && a.plan == b.plan
            && a.allowed == b.allowed && a.limit_reached == b.limit_reached,
        a.equivalent(b) ==> (a.email is Some <==> b.email is Some),
        a.equivalent(b) && a.email is Some ==> lowercase(a.email->Some_0) == lowercase(
            b.email->Some_0,
        ),
        a.equivalent(b) ==> windows_agree(a.primary_window, b.primary_window) && windows_agree(
            a.secondary_window,
            b.secondary_window,
        ) && credits_agree(a.credits, b.credits),
        a.equivalent((SnapshotView { updated_at: b.updated_at, ..a })),
{
    equivalence_is_reflexive_and_symmetric(a, a);
}

/// Windows that agree are both there or both absent, have one length, and resets that lie less than
/// two seconds apart.
pub proof fn windows_that_agree_are_close(a: UsageWindowSnapshot, b: UsageWindowSnapshot)
    ensures
        !windows_agree(Some(a), None),
        !windows_agree(None, Some(a)),
        windows_agree(Some(a), Some(b)) ==> a.limit_window_seconds == b.limit_window_seconds,
        windows_agree(Some(a), Some(b)) ==> (a.reset_at is Some <==> b.reset_at is Some),
        windows_agree(Some(a), Some(b)) && a.reset_at is Some && a.reset_at->Some_0.nanos
            < 1_000_000_000 && b.reset_at->Some_0.nanos < 1_000_000_000 ==> -2 <= a.reset_at->Some_0.secs
            - b.reset_at->Some_0.secs <= 2,
        a.reset_at is Some && b.reset_at is Some && (a.reset_at->Some_0.secs - b.reset_at->Some_0.secs
            > 4 || b.reset_at->Some_0.secs - a.reset_at->Some_0.secs > 4)
            && a.reset_at->Some_0.nanos < 1_000_000_000 && b.reset_at->Some_0.nanos < 1_000_000_000
            ==> !windows_agree(Some(a), Some(b)),
{
}

/// Shares that lie a hundredth of a percent apart, or more, are not close; equal ones are.
pub proof fn close_shares_lie_within_a_hundredth(a: Quantity, b: Quantity)
    requires
        a.wf(),
        b.wf(),
    ensures
        close(a, b) ==> -(0x1_0000_0000_0000_0000) < 100 * (a.scaled - b.scaled)
            < 0x1_0000_0000_0000_0000,
        a.scaled == b.scaled ==> close(a, b),
{
    rounding_takes_no_side(a.scaled - b.scaled);
    let apart = a.scaled - b.scaled;
    rounding_leaves_half(
        (if apart < 0 {
            -apart
        } else {
            apart
        }) as nat,
    );
}

/// Credits that agree are both there or both absent, and say the same of being there and of having
/// no end.
pub proof fn credits_that_agree_say_the_same(a: CreditsBalanceSnapshot, b: CreditsBalanceSnapshot)
    ensures
        !credits_agree(Some(a), None),
        !credits_agree(None, Some(a)),
        credits_agree(Some(a), Some(b)) ==> a.has_credits == b.has_credits && a.unlimited
            == b.unlimited && (a.balance is Some <==> b.balance is Some),
        credits_agree(Some(a), Some(b)) && a.balance is Some ==> close(
            a.balance->Some_0,
            b.balance->Some_0,
        ),
{
}

/// Credentials are due for a refresh where they never had one, and where the last one lies more
/// than eight days back; up to then they are not, and neither are those of a later refresh due
/// before those of an earlier one.
pub proof fn a_refresh_is_due_after_eight_days(c: CredentialsView, last: Moment, now: Moment)
    requires
        last.nanos < 1_000_000_000,
        now.nanos < 1_000_000_000,
        c.last_refresh == Some(last),
    ensures
        now.secs - last.secs > 8 * 24 * 60 * 60 ==> c.stale(now),
        now.secs - last.secs < 8 * 24 * 60 * 60 ==> !c.stale(now),
        now.secs - last.secs == 8 * 24 * 60 * 60 ==> (c.stale(now) <==> now.nanos > last.nanos),
        (CredentialsView { last_refresh: None, ..c }).stale(now),
{
}

/// A fetch that was not let through is followed by a refresh, where one is possible, and new
/// credentials are saved and used at once. Where an early refresh fails the fetch goes on without
/// it; where a late one fails, the result is handed out as it is.
pub proof fn a_fetch_is_repeated_with_new_credentials(can_refresh: bool)
    ensures
        fetch_next(
            FetchStage::FirstFetch,
            FetchEvent::Fetched { unauthorized: true },
            true,
        ).1 == FetchCommand::Refresh,
        fetch_next(
            fetch_next(FetchStage::FirstFetch, FetchEvent::Fetched { unauthorized: true }, true).0,
            FetchEvent::Refreshed,
            can_refresh,
        ).1 == FetchCommand::SaveAndFetch,
        fetch_next(
            fetch_next(FetchStage::FirstFetch, FetchEvent::Fetched { unauthorized: true }, true).0,
            FetchEvent::RefreshFailed,
            can_refresh,
        ).1 == FetchCommand::Finish,
        fetch_next(FetchStage::EarlyRefresh, FetchEvent::Refreshed, can_refresh) == (
            FetchStage::FirstFetch,
            FetchCommand::SaveAndFetch,
        ),
        fetch_next(FetchStage::EarlyRefresh, FetchEvent::RefreshFailed, can_refresh) == (
            FetchStage::FirstFetch,
            FetchCommand::Fetch,
        ),
{
}

/// A line that assigns the base gives it, without the quotes around it, and whatever follows does
/// not count.
pub proof fn an_assigned_base_is_found(
    name: Seq<char>,
    value: Seq<char>,
    rest: Seq<Seq<char>>,
)
    requires
        name.len() > 0,
        !is_white(name[0]),
        !name.contains('='),
        !name.contains('#'),
        trimmed(name) == "chatgpt_base_url"@,
        value.len() > 0,
        !is_white(value.last()),
        !value.contains('#'),
    ensures
        configured_base(seq![name + seq!['='] + value] + rest, nothing_open(), false) == Some(
            unquoted(trimmed(value)),
        ),
{
    let line = name + seq!['='] + value;
    let lines = seq![line] + rest;
    assert(lines[0] == line);
    assert forall|j: int| 0 <= j < line.len() implies line[j] != '#' by {
        if j < name.len() {
            assert(name.contains(name[j]));
        } else if j > name.len() {
            assert(value.contains(value[j - name.len() - 1]));
            assert(line[j] == value[j - name.len() - 1]);
        }
    }
    lemma_no_char(line, '#', 0);
    assert(line.last() == value.last());
    lemma_trimmed_alone(line);
    assert forall|j: int| 0 <= j < name.len() implies line[j] != '=' by {
        assert(name.contains(name[j]));
    }
    lemma_char_from(line, '=', 0, name.len() as int);
    assert(line.take(name.len() as int) =~= name);
    assert(line.skip(name.len() as int + 1) =~= value);
}

/// Comments are passed over, and the search ends at the name of a table.
pub proof fn comments_are_passed_over_and_tables_end_the_search(
    text: Seq<char>,
    rest: Seq<Seq<char>>,
)
    ensures
        configured_base(seq![seq!['#'] + text] + rest, nothing_open(), false) == configured_base(
            rest,
            nothing_open(),
            false,
        ),
        !text.contains('=') && !text.contains('#') ==> configured_base(
            seq![seq!['['] + text + seq![']']] + rest,
            nothing_open(),
            false,
        ) is None,
        configured_base(Seq::empty(), nothing_open(), false) is None,
{
    let comment = seq!['#'] + text;
    let lines = seq![comment] + rest;
    assert(lines[0] == comment);
    assert(lines.skip(1) =~= rest);
    lemma_char_from(comment, '#', 0, 0);
    assert(comment.take(0) =~= Seq::<char>::empty());
    lemma_trimmed_alone(Seq::empty());
    assert(open_after(comment, 0, nothing_open(), None) == nothing_open());
    if !text.contains('=') && !text.contains('#') {
        let table = seq!['['] + text + seq![']'];
        let lines = seq![table] + rest;
        assert(lines[0] == table);
        assert forall|j: int| 0 <= j < table.len() implies table[j] != '=' && table[j] != '#' by {
            if 1 <= j < table.len() - 1 {
                assert(text.contains(text[j - 1]));
                assert(table[j] == text[j - 1]);
            }
        }
        lemma_no_char(table, '#', 0);
        lemma_no_char(table, '=', 0);
        lemma_trimmed_alone(table);
    }
}

/// Quotes around a value are taken away, one on each side; a value without them stays.
pub proof fn quotes_are_taken_away(text: Seq<char>)
    ensures
        unquoted(seq!['"'] + text + seq!['"']) == text,
        unquoted(seq!['\''] + text + seq!['\'']) == text,
        text.len() == 0 || (text[0] != '"' && text[0] != '\'') ==> unquoted(text) == text,
{
    assert(unquoted(seq!['"'] + text + seq!['"']) =~= text);
    assert(unquoted(seq!['\''] + text + seq!['\'']) =~= text);
}

/// Usage is read below the configured base: below the backend where the base leads there, else
/// below the plain interface. Slashes at the end of the base do not count.
pub proof fn usage_is_read_below_the_base(base: Seq<char>)
    ensures
        usage_address(Some(base.push('/'))) == usage_address(Some(base)),
        base.len() > 0 && base.last() != '/' && !"https://chatgpt.com"@.is_prefix_of(base)
            && !"https://chat.openai.com"@.is_prefix_of(base) && !has_part(base, "/backend-api"@)
            ==> usage_address(Some(base)) == base + "/api/codex/usage"@,
        base.len() > 0 && base.last() != '/' && has_part(base, "/backend-api"@) ==> usage_address(
            Some(base),
        ) == base + "/wham/usage"@,
        base.len() > 0 && base.last() != '/' && "https://chatgpt.com"@.is_prefix_of(base)
            && !has_part(base, "/backend-api"@) ==> usage_address(Some(base)) == base
            + "/backend-api"@ + "/wham/usage"@,
        usage_address(None) == usage_address(Some("https://chatgpt.com/backend-api"@)),
{
    assert(base.push('/').drop_last() =~= base);
    let longer = base + "/backend-api"@;
    let tail = "/backend-api"@;
    assert(longer.subrange(base.len() as int, (base.len() + tail.len()) as int) =~= tail);
    assert(has_at(longer, tail, base.len() as int));
}

/// Reading the windows of a reply gives the window under `primary_window` and the one under
/// `secondary_window`, in one order or the other; the session and the week come as first and second.
pub proof fn the_windows_that_are_read_are_those_of_the_reply(
    o: &JsonObject,
    first: Map<Seq<char>, JsonValue>,
    second: Map<Seq<char>, JsonValue>,
    r: (Option<UsageWindowSnapshot>, Option<UsageWindowSnapshot>),
)
    requires
        call_ensures(make_normalized_windows, (Some(o),), r),
        says(o@, "primary_window"@, JsonValue::Object(first)),
        says(o@, "secondary_window"@, JsonValue::Object(second)),
    ensures
        ({
            let reached = says(o@, "limit_reached"@, JsonValue::Bool(true));
            &&& is_window(r.0, first, reached) && is_window(r.1, second, reached) || is_window(
                r.0,
                second,
                reached,
            ) && is_window(r.1, first, reached)
            &&& says(first, "limit_window_seconds"@, JsonValue::Signed(18_000)) && says(
                second,
                "limit_window_seconds"@,
                JsonValue::Signed(604_800),
            ) ==> is_window(r.0, first, reached) && is_window(r.1, second, reached)
            &&& says(first, "limit_window_seconds"@, JsonValue::Signed(604_800)) && says(
                second,
                "limit_window_seconds"@,
                JsonValue::Signed(18_000),
            ) ==> is_window(r.0, second, reached) && is_window(r.1, first, reached)
        }),
{
    windows_are_those_of_the_reply(o@, first, second);
}

/// A reply that holds new tokens leads to credentials with those tokens, and the ones that it does
/// not hold stay.
pub proof fn the_credentials_after_a_refresh_hold_the_new_tokens(
    credentials: &AuthCredentials,
    payload: &Json,
    now: Moment,
    m: Map<Seq<char>, JsonValue>,
    t: Seq<char>,
    r: Result<AuthCredentials, CodexApiError>,
)
    requires
        call_ensures(refreshed_credentials, (credentials, payload, now), r),
        payload@ == JsonValue::Object(m),
    ensures
        r is Ok,
        says(m, "access_token"@, JsonValue::Text(t)) && t.len() > 0 ==> r->Ok_0.access_token@ == t,
        says(m, "refresh_token"@, JsonValue::Text(t)) && t.len() > 0 ==> r->Ok_0.refresh_token@ == t,
        says(m, "id_token"@, JsonValue::Text(t)) && t.len() > 0 ==> seen(r->Ok_0.id_token) == Some(
            t,
        ),
        !m.dom().contains("access_token"@) ==> r->Ok_0.access_token@ == credentials.access_token@,
        !m.dom().contains("refresh_token"@) ==> r->Ok_0.refresh_token@ == credentials.refresh_token@,
        !m.dom().contains("id_token"@) ==> seen(r->Ok_0.id_token) == seen(credentials.id_token),
        credentials.account_id is Some ==> seen(r->Ok_0.account_id) == seen(credentials.account_id),
        r->Ok_0.last_refresh == Some(now),
{
    refreshed_tokens_are_those_of_the_reply(credentials@, m, now, t);
    let c = r->Ok_0@;
    assert(c == refreshed_with(credentials@, payload@, now));
}

/// A refresh can be asked for exactly where there is a token for it, and hands that token over.
pub proof fn a_refresh_needs_a_token(credentials: &AuthCredentials, r: Result<Json, CodexApiError>)
    requires
        call_ensures(refresh_request, (credentials,), r),
    ensures
        r is Ok <==> credentials.refresh_token@.len() > 0,
        r is Ok ==> r->Ok_0@ is Object && says(
            r->Ok_0@->Object_0,
            "refresh_token"@,
            JsonValue::Text(credentials.refresh_token@),
        ),
{
    a_refresh_request_names_its_token(credentials.refresh_token@, Seq::empty());
}

/// A fetch begins with a refresh exactly where one is due and there is a token for it.
pub proof fn a_fetch_begins_with_a_refresh_that_is_due(
    credentials: &AuthCredentials,
    now: Moment,
    r: (FetchStage, FetchCommand),
)
    requires
        call_ensures(fetch_start, (credentials, now), r),
    ensures
        r.1 == FetchCommand::Refresh <==> credentials@.stale(now)
            && credentials.refresh_token@.len() > 0,
        r.1 == FetchCommand::Refresh ==> r.0 == FetchStage::EarlyRefresh,
        r.1 != FetchCommand::Refresh ==> r == (FetchStage::FirstFetch, FetchCommand::Fetch),
{
}

/// A read counts as verified where two reads say the same, the later of which is handed out; after
/// three that all differ it is given up, and a failure is handed on at once.
pub proof fn two_reads_that_agree_are_needed(
    state: VerifiedRead,
    read: Result<AccountUsageSnapshot, CodexApiError>,
    r: VerifiedStep,
)
    requires
        call_ensures(verified_step, (state, read), r),
    ensures
        r is Done && r->Done_0 is Ok ==> read is Ok && r->Done_0->Ok_0 == read->Ok_0 && state
            !is Start,
        state is Start && read is Ok ==> r is Read,
        state is Once && read is Ok && state->Once_0@.equivalent(read->Ok_0@) ==> r is Done
            && r->Done_0 == read,
        state is Once && read is Ok && !state->Once_0@.equivalent(read->Ok_0@) ==> r is Read,
        state is Twice && read is Ok && (state->Twice_0@.equivalent(read->Ok_0@)
            || state->Twice_1@.equivalent(read->Ok_0@)) ==> r is Done && r->Done_0 == read,
        state is Twice && read is Ok && !state->Twice_0@.equivalent(read->Ok_0@)
            && !state->Twice_1@.equivalent(read->Ok_0@) ==> r is Done && r->Done_0 is Err,
        read is Err ==> r is Done && r->Done_0 == read,
{
}

/// Credentials are read from the file where it can be read; a missing file and one that cannot be
/// read are told apart.
pub proof fn credentials_are_read_from_their_file(
    file: &FileRead,
    r: Result<AuthCredentials, CodexApiError>,
)
    requires
        call_ensures(load_credentials, (file,), r),
    ensures
        *file is NotFound ==> r is Err && r->Err_0@ is Message,
        *file is Failed ==> r is Err && r->Err_0@ is Parse,
        *file is Contents ==> credentials_seen(r) == credentials_in_text(file->Contents_0@),
{
}

/// A request that was not let through is known by its message, and by nothing else.
pub proof fn what_was_not_let_through_is_known_by_its_message(
    result: &Result<AccountUsageSnapshot, CodexApiError>,
    r: bool,
)
    requires
        call_ensures(is_unauthorized, (result,), r),
    ensures
        *result is Ok ==> !r,
        r ==> *result is Err && result->Err_0@ == ApiErrorView::Message(
            "The Codex usage API request returned unauthorized."@,
        ),
        *result is Err && result->Err_0@ == ApiErrorView::Message(
            "The Codex usage API request returned unauthorized."@,
        ) ==> r,
{
}

/// A refresh that was refused for its token is told by the code of the refusal, in capitals or not;
/// any other failure of a refresh is told as an unexpected reply.
pub proof fn a_failed_refresh_is_told_by_status_and_code(status: u16, body: Seq<char>)
    ensures
        status == 401 ==> refresh_error(status, body) == refusal_message(
            lowercase(error_code_of_text(body)),
        ),
        status != 401 ==> refresh_error(status, body)
            == "The Codex API response was not in the expected format."@,
        json_parsed(body) is Err ==> error_code_of_text(body).len() == 0,
        json_parsed(body) matches Ok(v) ==> error_code_of_text(body) == error_code(v),
{
}

/// The text of an `auth.json` holds what its document holds; one that cannot be read is told with
/// the reader's own words.
pub proof fn a_text_holds_what_its_document_holds(content: Seq<char>)
    ensures
        json_parsed(content) matches Ok(v) ==> credentials_in_text(content) == credentials_in(v),
        json_parsed(content) matches Err(e) ==> credentials_in_text(content) is Err
            && credentials_in_text(content)->Err_0 == ApiErrorView::Parse(
            "Failed to parse the auth file: "@ + e,
        ),
{
}

/// Windows agree in their resets where these lie less than two seconds apart, and not from there on.
pub proof fn resets_agree_within_two_seconds(a: Moment, b: Moment)
    requires
        a.nanos < 1_000_000_000,
        b.nanos < 1_000_000_000,
    ensures
        resets_agree(Some(a), Some(b)) <==> -2_000_000_000 < (a.secs - b.secs) * 1_000_000_000
            + a.nanos - b.nanos < 2_000_000_000,
        resets_agree(None, None),
        !resets_agree(Some(a), None),
        !resets_agree(None, Some(b)),
{
}

/// An error is shown by its own words, with what kind it is in front where it is not a message.
pub proof fn errors_are_shown_by_their_words(error: &CodexApiError, r: String)
    requires
        call_ensures(CodexApiError::to_text, (error,), r),
    ensures
        *error is Message ==> r@ == error->Message_0@,
        *error is Network ==> r@ == "network error: "@ + error->Network_0@,
        *error is Parse ==> r@ == "failed to parse Codex payload: "@ + error->Parse_0@,
{
}

} // verus!
