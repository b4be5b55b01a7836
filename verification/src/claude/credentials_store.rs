//! Where credentials come from, what is kept of refreshed ones, and how they are
//! written back.

use vstd::prelude::*;
use crate::claude::tool::Tool;
use crate::claude::errors::{AccountError, ProviderError, ProviderErrorView};
use crate::codex_accounts::api::FileRead;
use crate::json::{as_scaled, as_text, is_readable, items_value, json_parsed, json_pretty, lookup, lookup_object, member, member_object, alike, alike_to, lemma_alike_members, lemma_items, parse_json, readable_to, reads_as, says, whole_numbers_stand_for_themselves, write_json_pretty, Json, JsonValue};
use crate::moment::Moment;
use crate::outside::{clock, is_reading, moment_of_second, FIRST_SECOND, LAST_SECOND};
use crate::quantity::{doubles_are_not_rounded, nearest, round_quotient, rounding_keeps_whole_seconds, two_to_64, Quantity, ONE};
use crate::text::{a_path_leads_to_its_part, concat2, copy_text, glimpsed, join_path, path_with, pieces, rsplit_once, parted_last, same, seen, split, trim, trimmed, trimmed_has_no_white_ends, views};

verus! {

/// Where credentials were read.
#[derive(Debug)]
pub enum CredentialSource {
    Environment,
    /// The file at this path.
    File(String),
    /// The system's key store, under this account.
    Keyring(String),
}

pub enum SourceView {
    Environment,
    File(Seq<char>),
    Keyring(Seq<char>),
}

impl View for CredentialSource {
    type V = SourceView;

    open spec fn view(&self) -> SourceView {
        match self {
            CredentialSource::Environment => SourceView::Environment,
            CredentialSource::File(p) => SourceView::File(p@),
            CredentialSource::Keyring(a) => SourceView::Keyring(a@),
        }
    }
}

impl Clone for CredentialSource {
    fn clone(&self) -> (r: CredentialSource)
        ensures
            r@ == self@,
    {
        match self {
            CredentialSource::Environment => CredentialSource::Environment,
            CredentialSource::File(p) => CredentialSource::File(p.clone()),
            CredentialSource::Keyring(a) => CredentialSource::Keyring(a.clone()),
        }
    }
}

/// Whether two sources are the same.
pub fn same_source(a: &CredentialSource, b: &CredentialSource) -> (r: bool)
    ensures
        r == (a@ == b@),
{
    match (a, b) {
        (CredentialSource::Environment, CredentialSource::Environment) => true,
        (CredentialSource::File(p), CredentialSource::File(q)) => same(p.as_str(), q.as_str()),
        (CredentialSource::Keyring(p), CredentialSource::Keyring(q)) => same(
            p.as_str(),
            q.as_str(),
        ),
        _ => false,
    }
}

/// One value for each source. Of two entries for one source the later one counts.
#[derive(Debug)]
pub struct SourceTable<V> {
    pub entries: Vec<(CredentialSource, V)>,
}

pub open spec fn table_value<V>(entries: Seq<(CredentialSource, V)>) -> Map<SourceView, V>
    decreases entries.len(),
{
    if entries.len() == 0 {
        Map::empty()
    } else {
        table_value(entries.drop_last()).insert(entries.last().0@, entries.last().1)
    }
}

impl<V> View for SourceTable<V> {
    type V = Map<SourceView, V>;

    open spec fn view(&self) -> Map<SourceView, V> {
        table_value(self.entries@)
    }
}

proof fn lemma_later_counts<V>(e: Seq<(CredentialSource, V)>, j: int, key: SourceView)
    requires
        0 <= j <= e.len(),
        forall|i: int| j <= i < e.len() ==> (#[trigger] e[i]).0@ != key,
    ensures
        table_value(e).contains_key(key) == table_value(e.take(j)).contains_key(key),
        table_value(e).contains_key(key) ==> table_value(e)[key] == table_value(e.take(j))[key],
    decreases e.len(),
{
    if j < e.len() {
        assert(e.drop_last().take(j) =~= e.take(j));
        assert(e.last().0@ != key);
        assert forall|i: int| j <= i < e.drop_last().len() implies (#[trigger] e.drop_last()[i]).0@
            != key by {
            assert(e.drop_last()[i] == e[i]);
        }
        lemma_later_counts(e.drop_last(), j, key);
    } else {
        assert(e.take(j) =~= e);
    }
}

proof fn lemma_dropped_entry<V>(e: Seq<(CredentialSource, V)>, j: int, key: SourceView)
    requires
        0 <= j < e.len(),
        e[j].0@ != key,
    ensures
        table_value(e.remove(j)).contains_key(key) == table_value(e).contains_key(key),
        table_value(e).contains_key(key) ==> table_value(e.remove(j))[key] == table_value(e)[key],
    decreases e.len(),
{
    if j == e.len() - 1 {
        assert(e.remove(j) =~= e.drop_last());
    } else {
        assert(e.remove(j).drop_last() =~= e.drop_last().remove(j));
        assert(e.remove(j).last() == e.last());
        lemma_dropped_entry(e.drop_last(), j, key);
    }
}

impl<V> SourceTable<V> {
    pub fn new() -> (r: SourceTable<V>)
        ensures
            r@ == Map::<SourceView, V>::empty(),
    {
        SourceTable { entries: Vec::new() }
    }

    /// The position of the entry that counts for `source`.
    fn position(&self, source: &CredentialSource) -> (r: Option<usize>)
        ensures
            r matches Some(i) ==> i < self.entries@.len() && self@.contains_key(source@)
                && self@[source@] == self.entries@[i as int].1 && self.entries@[i as int].0@ == source@,
            r is None <==> !self@.contains_key(source@),
            r is None ==> forall|i: int|
                0 <= i < self.entries@.len() ==> (#[trigger] self.entries@[i]).0@ != source@,
    {
        let mut j: usize = self.entries.len();
        while j > 0
            invariant
                j <= self.entries@.len(),
                forall|i: int| j <= i < self.entries@.len() ==> (#[trigger] self.entries@[i]).0@ != source@,
            decreases j,
        {
            if same_source(&self.entries[j - 1].0, source) {
                proof {
                    lemma_later_counts(self.entries@, j as int, source@);
                    assert(self.entries@.take(j as int).last() == self.entries@[j - 1]);
                }
                return Some(j - 1);
            }
            j -= 1;
        }
        proof {
            lemma_later_counts(self.entries@, 0, source@);
            assert(self.entries@.take(0) =~= Seq::empty());
        }
        None
    }

    /// The value for `source`.
    pub fn get(&self, source: &CredentialSource) -> (r: Option<&V>)
        ensures
            r matches Some(v) ==> self@.contains_key(source@) && self@[source@] == *v,
            r is None <==> !self@.contains_key(source@),
    {
        match self.position(source) {
            Some(i) => Some(&self.entries[i].1),
            None => None,
        }
    }

    /// Forgets the value for `source`.
    pub fn remove(&mut self, source: &CredentialSource)
        ensures
            final(self)@ == old(self)@.remove(source@),
    {
        let ghost before = self@;
        let mut j: usize = self.entries.len();
        while j > 0
            invariant
                j <= self.entries@.len(),
                forall|i: int| j <= i < self.entries@.len() ==> (#[trigger] self.entries@[i]).0@ != source@,
                forall|k: SourceView| k != source@ ==> (#[trigger] self@.contains_key(k)) == before.contains_key(k),
                forall|k: SourceView| k != source@ && before.contains_key(k) ==> #[trigger] self@[k] == before[k],
            decreases j,
        {
            j -= 1;
            if same_source(&self.entries[j].0, source) {
                let ghost e = self.entries@;
                let ghost m = self@;
                assert(m == table_value(e));
                assert(forall|k: SourceView| k != source@ ==> (#[trigger] m.contains_key(k)) == before.contains_key(k));
                assert(forall|k: SourceView| k != source@ && before.contains_key(k) ==> #[trigger] m[k] == before[k]);
                self.entries.remove(j);
                proof {
                    assert(self.entries@ =~= e.remove(j as int));
                    assert forall|k: SourceView| k != source@ implies (#[trigger] self@.contains_key(
                        k,
                    )) == before.contains_key(k) by {
                        lemma_dropped_entry(e, j as int, k);
                        assert(m.contains_key(k) == before.contains_key(k));
                    }
                    assert forall|k: SourceView|
                        k != source@ && before.contains_key(k) implies #[trigger] self@[k]
                        == before[k] by {
                        lemma_dropped_entry(e, j as int, k);
                        assert(m.contains_key(k) == before.contains_key(k));
                        assert(m[k] == before[k]);
                    }
                }
            }
        }
        proof {
            lemma_later_counts(self.entries@, 0, source@);
            assert(self.entries@.take(0) =~= Seq::empty());
            assert(self@ =~= before.remove(source@));
        }
    }

    /// Puts a value in the place of the one for `source`.
    pub fn insert(&mut self, source: &CredentialSource, value: V)
        ensures
            final(self)@ == old(self)@.insert(source@, value),
    {
        let ghost before = self@;
        self.remove(source);
        let ghost e = self.entries@;
        self.entries.push((source.clone(), value));
        proof {
            assert(self.entries@.drop_last() =~= e);
            assert(self@ =~= before.insert(source@, value));
        }
    }

    /// Forgets everything.
    pub fn clear(&mut self)
        ensures
            final(self)@ == Map::<SourceView, V>::empty(),
    {
        self.entries = Vec::new();
    }
}

/// OAuth credentials.
#[derive(Debug)]
pub struct ClaudeOAuthCredentials {
    pub access_token: String,
    pub refresh_token: Option<String>,
    pub expires_at: Option<Moment>,
    pub scopes: Vec<String>,
    pub rate_limit_tier: Option<String>,
}

#[verifier::ext_equal]
pub struct OAuthView {
    pub access_token: Seq<char>,
    pub refresh_token: Option<Seq<char>>,
    pub expires_at: Option<Moment>,
    pub scopes: Seq<Seq<char>>,
    pub rate_limit_tier: Option<Seq<char>>,
}

impl View for ClaudeOAuthCredentials {
    type V = OAuthView;

    open spec fn view(&self) -> OAuthView {
        OAuthView {
            access_token: self.access_token@,
            refresh_token: seen(self.refresh_token),
            expires_at: self.expires_at,
            scopes: views(self.scopes@),
            rate_limit_tier: seen(self.rate_limit_tier),
        }
    }
}

/// Copies texts.
pub fn copy_texts(v: &Vec<String>) -> (r: Vec<String>)
    ensures
        views(r@) == views(v@),
{
    let mut out: Vec<String> = Vec::new();
    let mut i: usize = 0;
    while i < v.len()
        invariant
            i <= v@.len(),
            views(out@) == views(v@).take(i as int),
        decreases v@.len() - i,
    {
        let ghost before = out@;
        out.push(v[i].clone());
        assert(views(out@) =~= views(before).push(v@[i as int]@));
        assert(views(v@).take(i + 1) =~= views(v@).take(i as int).push(v@[i as int]@));
        i += 1;
    }
    assert(views(v@).take(i as int) =~= views(v@));
    out
}

impl Clone for ClaudeOAuthCredentials {
    fn clone(&self) -> (r: ClaudeOAuthCredentials)
        ensures
            r@ == self@,
    {
        ClaudeOAuthCredentials {
            access_token: self.access_token.clone(),
            refresh_token: copy_text(&self.refresh_token),
            expires_at: self.expires_at,
            scopes: copy_texts(&self.scopes),
            rate_limit_tier: copy_text(&self.rate_limit_tier),
        }
    }
}

/// How long before its end a token counts as expired, in seconds.
pub const EXPIRY_MARGIN: i64 = 300;

impl OAuthView {
    /// The token has expired or will within five minutes. Without a known end it has not.
    pub open spec fn expired(self, now: Moment) -> bool {
        match self.expires_at {
            Some(end) => !now.precedes_by(EXPIRY_MARGIN as int, end),
            None => false,
        }
    }

    pub open spec fn scoped(self, scope: Seq<char>) -> bool {
        self.scopes.contains(scope)
    }
}

impl ClaudeOAuthCredentials {
    /// Whether the token counts as expired at `now`.
    pub fn is_expired_at(&self, now: Moment) -> (r: bool)
        ensures
            r == self@.expired(now),
    {
        match self.expires_at {
            Some(end) => !now.before_by(EXPIRY_MARGIN, end),
            None => false,
        }
    }

    /// Whether the token counts as expired by the clock.
    pub fn is_expired(&self) -> (r: bool)
        ensures
            self@.expires_at is None ==> !r,
            exists|now: Moment| is_reading(now) && r == #[trigger] self@.expired(now),
    {
        let now = clock();
        self.is_expired_at(now)
    }

    /// Whether the token carries a scope.
    pub fn has_scope(&self, scope: &str) -> (r: bool)
        ensures
            r == self@.scoped(scope@),
    {
        let mut i: usize = 0;
        while i < self.scopes.len()
            invariant
                i <= self.scopes@.len(),
                forall|j: int| 0 <= j < i ==> #[trigger] views(self.scopes@)[j] != scope@,
            decreases self.scopes@.len() - i,
        {
            if same(self.scopes[i].as_str(), scope) {
                assert(views(self.scopes@)[i as int] == scope@);
                return true;
            }
            i += 1;
        }
        false
    }
}

/// `cached` lasts longer than `read`; one without an end does not count as lasting longer.
pub open spec fn lasts_longer(cached: Option<Moment>, read: Option<Moment>) -> bool {
    match (cached, read) {
        (Some(c), Some(f)) => f.precedes(c),
        (Some(_), None) => true,
        _ => false,
    }
}

/// The refreshed credentials kept for `source`, where they last longer than those just read.
pub fn cached_refreshed_if_fresher(
    cache: &SourceTable<ClaudeOAuthCredentials>,
    source: &CredentialSource,
    file_creds: &ClaudeOAuthCredentials,
) -> (r: Option<ClaudeOAuthCredentials>)
    ensures
        r is Some <==> cache@.contains_key(source@) && lasts_longer(
            cache@[source@].expires_at,
            file_creds@.expires_at,
        ),
        r matches Some(c) ==> c@ == cache@[source@]@,
{
    match cache.get(source) {
        None => None,
        Some(cached) => {
            let fresher = match (cached.expires_at, file_creds.expires_at) {
                (Some(c), Some(f)) => f.before(c),
                (Some(_), None) => true,
                _ => false,
            };
            if fresher {
                Some(cached.clone())
            } else {
                None
            }
        },
    }
}

/// Keeps refreshed credentials for `source`.
pub fn store_refreshed(
    cache: &mut SourceTable<ClaudeOAuthCredentials>,
    source: &CredentialSource,
    credentials: &ClaudeOAuthCredentials,
)
    ensures
        final(cache)@.dom() == old(cache)@.dom().insert(source@),
        final(cache)@[source@]@ == credentials@,
        forall|k: SourceView|
            k != source@ && old(cache)@.contains_key(k) ==> #[trigger] final(cache)@[k] == old(
                cache,
            )@[k],
{
    cache.insert(source, credentials.clone());
}

/// Forgets all refreshed credentials.
pub fn clear_cache(cache: &mut SourceTable<ClaudeOAuthCredentials>)
    ensures
        final(cache)@ == Map::<SourceView, ClaudeOAuthCredentials>::empty(),
{
    cache.clear();
}

/// What is kept for one source says nothing of another: a value for `a` is never found under
/// `b`.
pub proof fn sources_do_not_mix<V>(table: Map<SourceView, V>, a: SourceView, b: SourceView, v: V)
    requires
        a != b,
    ensures
        table.insert(a, v).contains_key(b) == table.contains_key(b),
        table.contains_key(b) ==> table.insert(a, v)[b] == table[b],
        table.remove(a).contains_key(b) == table.contains_key(b),
{
}

/// The trimmed parts between commas that are not blank.
pub open spec fn named_scopes(parts: Seq<Seq<char>>) -> Seq<Seq<char>>
    decreases parts.len(),
{
    if parts.len() == 0 {
        Seq::empty()
    } else {
        let rest = named_scopes(parts.drop_last());
        if trimmed(parts.last()).len() > 0 {
            rest.push(trimmed(parts.last()))
        } else {
            rest
        }
    }
}

/// The credentials in the environment: a token that is not blank, with the scopes named
/// beside it, or one scope where none are named.
pub fn load_from_environment(token: Option<&str>, scopes: Option<&str>) -> (r: Option<
    ClaudeOAuthCredentials,
>)
    ensures
        r is Some <==> token is Some && trimmed(token->Some_0@).len() > 0,
        r matches Some(c) ==> c@ == (OAuthView {
            access_token: trimmed(token->Some_0@),
            refresh_token: None,
            expires_at: None,
            scopes: match scopes {
                Some(s) => named_scopes(pieces(s@, ',')),
                None => seq!["user:profile"@],
            },
            rate_limit_tier: None,
        }),
{
    let token = match token {
        Some(t) => trim(t),
        None => {
            return None;
        },
    };
    if token.is_empty() {
        return None;
    }
    let mut named: Vec<String> = Vec::new();
    match scopes {
        Some(s) => {
            let parts = split(s, ',');
            let ghost all = views(parts@);
            let mut i: usize = 0;
            assert(all.take(0) =~= Seq::empty());
            assert(views(named@) =~= Seq::empty());
            while i < parts.len()
                invariant
                    i <= parts@.len(),
                    all == views(parts@),
                    views(named@) == named_scopes(all.take(i as int)),
                decreases parts@.len() - i,
            {
                let t = trim(parts[i].as_str());
                assert(all.take(i + 1).drop_last() =~= all.take(i as int));
                assert(all.take(i + 1).last() == parts@[i as int]@);
                if !t.is_empty() {
                    let ghost before = named@;
                    named.push(t.to_owned());
                    assert(views(named@) =~= views(before).push(t@));
                }
                i += 1;
            }
            assert(all.take(i as int) =~= all);
        },
        None => {
            named.push("user:profile".to_owned());
            assert(views(named@) =~= seq!["user:profile"@]);
        },
    }
    Some(
        ClaudeOAuthCredentials {
            access_token: token.to_owned(),
            refresh_token: None,
            expires_at: None,
            scopes: named,
            rate_limit_tier: None,
        },
    )
}

/// A text that may be absent: `None` where the field is of the wrong type.
pub open spec fn text_value(field: Option<JsonValue>) -> Option<Option<Seq<char>>> {
    match field {
        None => Some(None),
        Some(JsonValue::Null) => Some(None),
        Some(JsonValue::Text(s)) => Some(Some(s)),
        Some(_) => None,
    }
}

/// A number that may be absent, in units of 2^-64.
pub open spec fn number_value(field: Option<JsonValue>) -> Option<Option<int>> {
    match field {
        None => Some(None),
        Some(JsonValue::Null) => Some(None),
        Some(v) => match as_scaled(v) {
            Some(n) => Some(Some(n)),
            None => None,
        },
    }
}

/// The texts in an array; `None` where one item is no text.
pub open spec fn all_texts(items: Seq<JsonValue>) -> Option<Seq<Seq<char>>>
    decreases items.len(),
{
    if items.len() == 0 {
        Some(Seq::empty())
    } else {
        match (all_texts(items.drop_last()), as_text(items.last())) {
            (Some(rest), Some(s)) => Some(rest.push(s)),
            _ => None,
        }
    }
}

/// Texts that may be absent.
pub open spec fn texts_value(field: Option<JsonValue>) -> Option<Option<Seq<Seq<char>>>> {
    match field {
        None => Some(None),
        Some(JsonValue::Null) => Some(None),
        Some(JsonValue::Array(items)) => match all_texts(items) {
            Some(t) => Some(Some(t)),
            None => None,
        },
        Some(_) => None,
    }
}

/// The OAuth data in an object, as written by the command line tool.
#[derive(Debug)]
pub struct OAuthData {
    pub access_token: Option<String>,
    pub refresh_token: Option<String>,
    /// Milliseconds since 1970-01-01T00:00:00Z.
    pub expires_at: Option<Quantity>,
    pub scopes: Option<Vec<String>>,
    pub rate_limit_tier: Option<String>,
}

#[verifier::ext_equal]
pub struct OAuthDataView {
    pub access_token: Option<Seq<char>>,
    pub refresh_token: Option<Seq<char>>,
    pub expires_at: Option<int>,
    pub scopes: Option<Seq<Seq<char>>>,
    pub rate_limit_tier: Option<Seq<char>>,
}

impl View for OAuthData {
    type V = OAuthDataView;

    open spec fn view(&self) -> OAuthDataView {
        OAuthDataView {
            access_token: seen(self.access_token),
            refresh_token: seen(self.refresh_token),
            expires_at: match self.expires_at {
                Some(q) => Some(q.scaled as int),
                None => None,
            },
            scopes: match self.scopes {
                Some(v) => Some(views(v@)),
                None => None,
            },
            rate_limit_tier: seen(self.rate_limit_tier),
        }
    }
}

/// The OAuth data in its five fields; `None` where one is of the wrong type.
pub open spec fn oauth_data_from(
    access_token: Option<JsonValue>,
    refresh_token: Option<JsonValue>,
    expires_at: Option<JsonValue>,
    scopes: Option<JsonValue>,
    rate_limit_tier: Option<JsonValue>,
) -> Option<OAuthDataView> {
    match (
        text_value(access_token),
        text_value(refresh_token),
        number_value(expires_at),
        texts_value(scopes),
        text_value(rate_limit_tier),
    ) {
        (
            Some(access_token),
            Some(refresh_token),
            Some(expires_at),
            Some(scopes),
            Some(rate_limit_tier),
        ) => Some(
            OAuthDataView { access_token, refresh_token, expires_at, scopes, rate_limit_tier },
        ),
        _ => None,
    }
}

/// The OAuth data in an object.
pub open spec fn oauth_data_in(m: Map<Seq<char>, JsonValue>) -> Option<OAuthDataView> {
    oauth_data_from(
        member(m, "accessToken"@),
        member(m, "refreshToken"@),
        member(m, "expiresAt"@),
        member(m, "scopes"@),
        member(m, "rateLimitTier"@),
    )
}

/// The OAuth data in a document: an object, or an array of the five fields.
pub open spec fn oauth_data_of(v: JsonValue) -> Option<OAuthDataView> {
    match v {
        JsonValue::Object(m) => oauth_data_in(m),
        JsonValue::Array(f) => if f.len() == 5 {
            oauth_data_from(Some(f[0]), Some(f[1]), Some(f[2]), Some(f[3]), Some(f[4]))
        } else {
            None
        },
        _ => None,
    }
}

/// The value of a field that may be absent.
pub open spec fn field_seen(field: Option<&Json>) -> Option<JsonValue> {
    match field {
        Some(v) => Some(v@),
        None => None,
    }
}

fn read_text_value(field: Option<&Json>) -> (r: Option<Option<String>>)
    ensures
        r matches Some(v) ==> text_value(field_seen(field)) == Some(seen(v)),
        r is None <==> text_value(field_seen(field)) is None,
{
    match field {
        None => Some(None),
        Some(Json::Null) => Some(None),
        Some(Json::Text(s)) => Some(Some(s.clone())),
        Some(_) => None,
    }
}

fn read_texts(items: &Vec<Json>) -> (r: Option<Vec<String>>)
    ensures
        r matches Some(v) ==> all_texts(items_value(items@)) == Some(views(v@)),
        r is None <==> all_texts(items_value(items@)) is None,
{
    let mut out: Vec<String> = Vec::new();
    let ghost all = items_value(items@);
    proof {
        lemma_items(items@);
        assert(all.take(0) =~= Seq::empty());
        assert(views(out@) =~= Seq::empty());
    }
    let mut i: usize = 0;
    while i < items.len()
        invariant
            i <= items@.len(),
            all == items_value(items@),
            all.len() == items@.len(),
            forall|j: int| 0 <= j < items@.len() ==> #[trigger] all[j] == items@[j]@,
            all_texts(all.take(i as int)) == Some(views(out@)),
        decreases items@.len() - i,
    {
        assert(all.take(i + 1).drop_last() =~= all.take(i as int));
        assert(all.take(i + 1).last() == items@[i as int]@);
        match items[i].text() {
            Some(s) => {
                let ghost before = out@;
                out.push(s.to_owned());
                assert(views(out@) =~= views(before).push(s@));
            },
            None => {
                proof {
                    assert(all[i as int] == items@[i as int]@);
                    lemma_one_no_text(all, i as int);
                }
                return None;
            },
        }
        i += 1;
    }
    assert(all.take(i as int) =~= all);
    Some(out)
}

proof fn lemma_one_no_text(items: Seq<JsonValue>, i: int)
    requires
        0 <= i < items.len(),
        as_text(items[i]) is None,
    ensures
        all_texts(items) is None,
    decreases items.len(),
{
    if i < items.len() - 1 {
        lemma_one_no_text(items.drop_last(), i);
    }
}

fn read_oauth_fields(
    access_token: Option<&Json>,
    refresh_token: Option<&Json>,
    expires_at: Option<&Json>,
    scopes: Option<&Json>,
    rate_limit_tier: Option<&Json>,
) -> (r: Option<OAuthData>)
    ensures
        ({
            let data = oauth_data_from(
                field_seen(access_token),
                field_seen(refresh_token),
                field_seen(expires_at),
                field_seen(scopes),
                field_seen(rate_limit_tier),
            );
            &&& r matches Some(d) ==> data == Some(d@)
            &&& r is None <==> data is None
        }),
        r matches Some(d) ==> d.expires_at matches Some(q) ==> q.wf(),
{
    let access_token = match read_text_value(access_token) {
        Some(v) => v,
        None => {
            return None;
        },
    };
    let refresh_token = match read_text_value(refresh_token) {
        Some(v) => v,
        None => {
            return None;
        },
    };
    let expires_at: Option<Quantity> = match expires_at {
        None => None,
        Some(Json::Null) => None,
        Some(v) => match v.quantity() {
            Some(q) => Some(q),
            None => {
                return None;
            },
        },
    };
    let scopes: Option<Vec<String>> = match scopes {
        None => None,
        Some(Json::Null) => None,
        Some(Json::Array(items)) => match read_texts(items) {
            Some(t) => Some(t),
            None => {
                return None;
            },
        },
        Some(_) => {
            return None;
        },
    };
    let rate_limit_tier = match read_text_value(rate_limit_tier) {
        Some(v) => v,
        None => {
            return None;
        },
    };
    Some(OAuthData { access_token, refresh_token, expires_at, scopes, rate_limit_tier })
}

/// The OAuth data in a document.
pub fn read_oauth_data(v: &Json) -> (r: Option<OAuthData>)
    ensures
        r matches Some(d) ==> oauth_data_of(v@) == Some(d@),
        r is None <==> oauth_data_of(v@) is None,
        r matches Some(d) ==> d.expires_at matches Some(q) ==> q.wf(),
{
    match v {
        Json::Object(o) => read_oauth_fields(
            o.get("accessToken"),
            o.get("refreshToken"),
            o.get("expiresAt"),
            o.get("scopes"),
            o.get("rateLimitTier"),
        ),
        Json::Array(f) => {
            proof {
                lemma_items(f@);
            }
            if f.len() == 5 {
                read_oauth_fields(
                    Some(&f[0]),
                    Some(&f[1]),
                    Some(&f[2]),
                    Some(&f[3]),
                    Some(&f[4]),
                )
            } else {
                None
            }
        },
        _ => None,
    }
}

/// A quantity of milliseconds in whole seconds: the quotient as a double, without its fraction.
pub open spec fn whole_seconds(scaled: int) -> int {
    if scaled < 0 {
        -((nearest((-scaled) as nat, 1000) / ONE as nat) as int)
    } else {
        (nearest(scaled as nat, 1000) / ONE as nat) as int
    }
}

/// The instant that a quantity of milliseconds stands for; `now` where it is out of range.
pub open spec fn expiry(scaled: int, now: Moment) -> Moment {
    let secs = whole_seconds(scaled);
    if FIRST_SECOND <= secs <= LAST_SECOND {
        Moment { secs: secs as i64, nanos: 0 }
    } else {
        now
    }
}

fn expiry_moment(q: Quantity, now: Moment) -> (r: Moment)
    requires
        q.wf(),
    ensures
        r == expiry(q.scaled as int, now),
{
    let secs: i128 = if q.scaled < 0 {
        -(round_quotient(-q.scaled, 1000) / ONE)
    } else {
        round_quotient(q.scaled, 1000) / ONE
    };
    assert(secs == whole_seconds(q.scaled as int));
    if secs < FIRST_SECOND as i128 || secs > LAST_SECOND as i128 {
        return now;
    }
    match moment_of_second(secs as i64) {
        Some(t) => t,
        None => now,
    }
}

/// The credentials in OAuth data.
pub open spec fn credentials_of(tool: Tool, d: OAuthDataView, now: Moment) -> Result<OAuthView, ProviderErrorView> {
    match d.access_token {
        None => Err(
            ProviderErrorView::OAuth(
                tool.token_missing(),
            ),
        ),
        Some(token) => if trimmed(token).len() == 0 {
            Err(
                ProviderErrorView::OAuth(
                    tool.token_blank(),
                ),
            )
        } else {
            Ok(
                OAuthView {
                    access_token: trimmed(token),
                    refresh_token: d.refresh_token,
                    expires_at: match d.expires_at {
                        Some(n) => Some(expiry(n, now)),
                        None => None,
                    },
                    scopes: match d.scopes {
                        Some(s) => s,
                        None => Seq::empty(),
                    },
                    rate_limit_tier: d.rate_limit_tier,
                },
            )
        },
    }
}

/// What a result of reading credentials holds.
pub open spec fn oauth_seen(r: Result<ClaudeOAuthCredentials, ProviderError>) -> Result<
    OAuthView,
    ProviderErrorView,
> {
    match r {
        Ok(c) => Ok(c@),
        Err(e) => Err(e@),
    }
}

/// The credentials in OAuth data; `now` stands for an end that is out of range.
pub fn credentials_from_oauth_data(tool: &Tool, oauth: OAuthData, now: Moment) -> (r: Result<
    ClaudeOAuthCredentials,
    ProviderError,
>)
    requires
        oauth.expires_at matches Some(q) ==> q.wf(),
    ensures
        oauth_seen(r) == credentials_of(*tool, oauth@, now),
{
    let token = match oauth.access_token {
        Some(t) => t,
        None => {
            return Err(
                ProviderError::OAuth(
                    tool.say_token_missing(),
                ),
            );
        },
    };
    let token = trim(token.as_str()).to_owned();
    if token.as_str().is_empty() {
        return Err(
            ProviderError::OAuth(
                tool.say_token_blank(),
            ),
        );
    }
    let expires_at = match oauth.expires_at {
        Some(q) => Some(expiry_moment(q, now)),
        None => None,
    };
    let scopes = match oauth.scopes {
        Some(s) => s,
        None => {
            let none: Vec<String> = Vec::new();
            assert(views(none@) =~= Seq::empty());
            none
        },
    };
    Ok(
        ClaudeOAuthCredentials {
            access_token: token,
            refresh_token: oauth.refresh_token,
            expires_at,
            scopes,
            rate_limit_tier: oauth.rate_limit_tier,
        },
    )
}

/// What is told of a document whose fields are of the wrong type.
pub const WRONG_TYPES: &'static str = "Invalid credentials format: a field is of an unexpected type";

/// Where a document has OAuth data beneath its top: under `claudeAiOauth`, or as the only item
/// of an array.
pub open spec fn nested_oauth(json: JsonValue) -> Option<JsonValue> {
    match json {
        JsonValue::Array(items) => if items.len() == 1 {
            Some(items[0])
        } else {
            None
        },
        _ => lookup(json, "claudeAiOauth"@),
    }
}

/// The credentials in a document: beneath its top, else at the top. What cannot be read beneath
/// the top counts as absent.
pub open spec fn credentials_in(tool: Tool, json: JsonValue, now: Moment) -> Result<OAuthView, ProviderErrorView> {
    let nested = match nested_oauth(json) {
        Some(v) => oauth_data_of(v),
        None => None,
    };
    match nested {
        Some(d) => credentials_of(tool, d, now),
        None => match oauth_data_of(json) {
            Some(d) => credentials_of(tool, d, now),
            None => Err(ProviderErrorView::OAuth(WRONG_TYPES@)),
        },
    }
}

/// The credentials in a document.
pub fn credentials_from_json(tool: &Tool, json: &Json, now: Moment) -> (r: Result<
    ClaudeOAuthCredentials,
    ProviderError,
>)
    ensures
        oauth_seen(r) == credentials_in(*tool, json@, now),
{
    let nested = match json {
        Json::Array(items) => {
            proof {
                lemma_items(items@);
            }
            if items.len() == 1 {
                Some(&items[0])
            } else {
                None
            }
        },
        _ => json.get("claudeAiOauth"),
    };
    if let Some(inner) = nested {
        if let Some(d) = read_oauth_data(inner) {
            return credentials_from_oauth_data(tool, d, now);
        }
    }
    match read_oauth_data(json) {
        Some(d) => credentials_from_oauth_data(tool, d, now),
        None => Err(ProviderError::OAuth(WRONG_TYPES.to_owned())),
    }
}

/// The credentials in a text.
pub open spec fn credentials_in_text(tool: Tool, content: Seq<char>, now: Moment) -> Result<
    OAuthView,
    ProviderErrorView,
> {
    match json_parsed(content) {
        Ok(json) => credentials_in(tool, json, now),
        Err(e) => Err(ProviderErrorView::OAuth("Invalid credentials format: "@ + e)),
    }
}

/// The credentials in a text, as the command line tool writes it.
pub fn parse_credentials_json(tool: &Tool, content: &str, now: Moment) -> (r: Result<
    ClaudeOAuthCredentials,
    ProviderError,
>)
    ensures
        oauth_seen(r) == credentials_in_text(*tool, content@, now),
{
    match parse_json(content) {
        Ok(json) => credentials_from_json(tool, &json, now),
        Err(e) => Err(ProviderError::OAuth(concat2("Invalid credentials format: ", e.as_str()))),
    }
}

/// The credentials in the credentials file, given what reading it came to.
pub fn load_from_file(tool: &Tool, file: &FileRead, now: Moment) -> (r: Result<
    ClaudeOAuthCredentials,
    ProviderError,
>)
    ensures
        oauth_seen(r) == (match file {
            FileRead::Contents(content) => credentials_in_text(*tool, content@, now),
            FileRead::NotFound => Err(
                ProviderErrorView::OAuth(
                    tool.credentials_not_found(),
                ),
            ),
            FileRead::Failed(e) => Err(
                ProviderErrorView::OAuth("Failed to read credentials file: "@ + e@),
            ),
        }),
{
    match file {
        FileRead::Contents(content) => parse_credentials_json(tool, content.as_str(), now),
        FileRead::NotFound => Err(
            ProviderError::OAuth(
                tool.say_credentials_not_found(),
            ),
        ),
        FileRead::Failed(e) => Err(
            ProviderError::OAuth(concat2("Failed to read credentials file: ", e.as_str())),
        ),
    }
}

/// The first entry of the key store that holds anything, at or after `i`.
pub open spec fn first_filled(entries: Seq<(String, Option<String>)>, i: int) -> Option<int>
    decreases entries.len() - i,
{
    if i >= entries.len() {
        None
    } else {
        match entries[i].1 {
            Some(content) => if trimmed(content@).len() > 0 {
                Some(i)
            } else {
                first_filled(entries, i + 1)
            },
            None => first_filled(entries, i + 1),
        }
    }
}

/// The credentials in the key store: those in the first entry that holds anything. `entries`
/// are the accounts that were looked up, with what was found.
pub fn load_from_keyring(tool: &Tool, entries: &Vec<(String, Option<String>)>, now: Moment) -> (r: Result<
    Option<(ClaudeOAuthCredentials, CredentialSource)>,
    ProviderError,
>)
    ensures
        match first_filled(entries@, 0) {
            None => r matches Ok(o) && o is None,
            Some(i) => match credentials_in_text(*tool, entries@[i].1->Some_0@, now) {
                Err(e) => r is Err && r->Err_0@ == e,
                Ok(c) => {
                    &&& r matches Ok(Some((found, source)))
                    &&& found@ == c
                    &&& source@ == SourceView::Keyring(entries@[i].0@)
                },
            },
        },
{
    let mut i: usize = 0;
    while i < entries.len()
        invariant
            i <= entries@.len(),
            first_filled(entries@, 0) == first_filled(entries@, i as int),
        decreases entries@.len() - i,
    {
        if let Some(content) = &entries[i].1 {
            if !trim(content.as_str()).is_empty() {
                return match parse_credentials_json(tool, content.as_str(), now) {
                    Ok(c) => Ok(Some((c, CredentialSource::Keyring(entries[i].0.clone())))),
                    Err(e) => Err(e),
                };
            }
        }
        i += 1;
    }
    Ok(None)
}

/// What is used before any store of the tool is looked at: a token in the environment.
/// Without one, the tool's own stores are only looked at with the user's consent.
pub fn load_before_stores(tool: &Tool, environment: Option<ClaudeOAuthCredentials>, consent: bool) -> (r: Result<
    Option<(ClaudeOAuthCredentials, CredentialSource)>,
    ProviderError,
>)
    ensures
        match environment {
            Some(c) => {
                &&& r matches Ok(Some((found, source)))
                &&& found == c
                &&& source@ == SourceView::Environment
            },
            None => if consent {
                r matches Ok(o) && o is None
            } else {
                r is Err && r->Err_0@ == ProviderErrorView::OAuth(tool.consent_off())
            },
        },
{
    match environment {
        Some(c) => Ok(Some((c, CredentialSource::Environment))),
        None => if consent {
            Ok(None)
        } else {
            Err(ProviderError::OAuth(tool.say_consent_off()))
        },
    }
}

/// What is used of the tool's own stores: the file, else the key store. Where both fail, the
/// file's error is told, except that a key store entry that cannot be read goes before it.
pub fn load_from_stores(
    file: Result<ClaudeOAuthCredentials, ProviderError>,
    path: &str,
    keyring: Result<Option<(ClaudeOAuthCredentials, CredentialSource)>, ProviderError>,
) -> (r: Result<(ClaudeOAuthCredentials, CredentialSource), ProviderError>)
    ensures
        match (file, keyring) {
            (Ok(c), _) => {
                &&& r matches Ok((found, source))
                &&& found == c
                &&& source@ == SourceView::File(path@)
            },
            (Err(_), Err(e)) => r is Err && r->Err_0 == e,
            (Err(_), Ok(Some((c, s)))) => {
                &&& r matches Ok((found, source))
                &&& found == c
                &&& source == s
            },
            (Err(e), Ok(None)) => r is Err && r->Err_0 == e,
        },
{
    match file {
        Ok(c) => Ok((c, CredentialSource::File(path.to_owned()))),
        Err(file_error) => match keyring {
            Err(e) => Err(e),
            Ok(Some((c, s))) => Ok((c, s)),
            Ok(None) => Err(file_error),
        },
    }
}

/// The candidates with one more: a blank one, or one that is there already, is left out.
pub open spec fn with_candidate(candidates: Seq<Seq<char>>, value: Seq<char>) -> Seq<Seq<char>> {
    let v = trimmed(value);
    if v.len() == 0 || candidates.contains(v) {
        candidates
    } else {
        candidates.push(v)
    }
}

/// Adds an account name to those that are looked up.
pub fn push_keyring_candidate(candidates: &mut Vec<String>, value: &str)
    ensures
        views(final(candidates)@) == with_candidate(views(old(candidates)@), value@),
{
    let v = trim(value);
    if v.is_empty() {
        return;
    }
    let mut i: usize = 0;
    while i < candidates.len()
        invariant
            *candidates == *old(candidates),
            v@ == trimmed(value@),
            v@.len() > 0,
            i <= candidates@.len(),
            forall|j: int| 0 <= j < i ==> #[trigger] views(candidates@)[j] != v@,
        decreases candidates@.len() - i,
    {
        if same(candidates[i].as_str(), v) {
            assert(views(candidates@)[i as int] == v@);
            return;
        }
        i += 1;
    }
    let ghost before = candidates@;
    candidates.push(v.to_owned());
    assert(views(candidates@) =~= views(before).push(v@));
}

/// The name behind the last `separator`, where there is one.
pub open spec fn with_tail(candidates: Seq<Seq<char>>, name: Seq<char>, separator: Seq<char>) -> Seq<
    Seq<char>,
> {
    match parted_last(name, separator) {
        Some((_, tail)) => with_candidate(candidates, tail),
        None => candidates,
    }
}

/// The account names under which credentials are looked up: those in the environment, then
/// the one that the system reports, whole and without what stands in front of a separator.
pub open spec fn account_names(
    user: Option<Seq<char>>,
    username: Option<Seq<char>>,
    reported: Option<Seq<char>>,
) -> Seq<Seq<char>> {
    let a = match user {
        Some(u) => with_candidate(Seq::empty(), u),
        None => Seq::empty(),
    };
    let b = match username {
        Some(u) => with_candidate(a, u),
        None => a,
    };
    match reported {
        Some(w) => {
            let t = trimmed(w);
            with_tail(with_tail(with_candidate(b, t), t, "\\"@), t, "/"@)
        },
        None => b,
    }
}

/// The account names under which credentials are looked up.
pub fn keyring_account_candidates(
    user: Option<&str>,
    username: Option<&str>,
    reported: Option<&str>,
) -> (r: Vec<String>)
    ensures
        views(r@) == account_names(glimpsed(user), glimpsed(username), glimpsed(reported)),
{
    let mut out: Vec<String> = Vec::new();
    assert(views(out@) =~= Seq::empty());
    if let Some(u) = user {
        push_keyring_candidate(&mut out, u);
    }
    if let Some(u) = username {
        push_keyring_candidate(&mut out, u);
    }
    if let Some(w) = reported {
        let t = trim(w);
        push_keyring_candidate(&mut out, t);
        if let Some((_, tail)) = rsplit_once(t, "\\") {
            push_keyring_candidate(&mut out, tail);
        }
        if let Some((_, tail)) = rsplit_once(t, "/") {
            push_keyring_candidate(&mut out, tail);
        }
    }
    out
}

/// Where the credentials file is.
pub fn credentials_path(
    tool: &Tool,
    config_dir: Result<String, AccountError>,
    separator: char,
) -> (r: Result<String, ProviderError>)
    ensures
        match config_dir {
            Ok(dir) => r is Ok && r->Ok_0@ == path_with(dir@, ".credentials.json"@, separator),
            Err(e) => r is Err && r->Err_0@ == ProviderErrorView::OAuth(e@.text(*tool)),
        },
{
    match config_dir {
        Ok(dir) => Ok(join_path(dir.as_str(), ".credentials.json", separator)),
        Err(e) => Err(ProviderError::OAuth(e.message(tool))),
    }
}

/// An instant in milliseconds, fractions dropped.
pub open spec fn millis(t: Moment) -> int {
    t.secs * 1000 + t.nanos as int / 1_000_000
}

/// The OAuth data of an object with refreshed credentials put into it.
pub open spec fn oauth_after(
    oauth: Map<Seq<char>, JsonValue>,
    c: OAuthView,
) -> Map<Seq<char>, JsonValue> {
    let a = oauth.insert("accessToken"@, JsonValue::Text(c.access_token));
    let b = match c.refresh_token {
        Some(t) => a.insert("refreshToken"@, JsonValue::Text(t)),
        None => a,
    };
    let d = match c.expires_at {
        Some(t) => b.insert("expiresAt"@, JsonValue::Signed(millis(t) as i64)),
        None => b,
    };
    if c.scopes.len() > 0 {
        d.insert(
            "scopes"@,
            JsonValue::Array(c.scopes.map_values(|s: Seq<char>| JsonValue::Text(s))),
        )
    } else {
        d
    }
}

/// A credentials document with refreshed credentials put into it; `None` where it holds no
/// `claudeAiOauth` object.
pub open spec fn document_after(root: JsonValue, c: OAuthView) -> Option<JsonValue> {
    match root {
        JsonValue::Object(m) => match member_object(m, "claudeAiOauth"@) {
            Some(oauth) => Some(
                JsonValue::Object(
                    m.insert("claudeAiOauth"@, JsonValue::Object(oauth_after(oauth, c))),
                ),
            ),
            None => None,
        },
        _ => None,
    }
}

/// What is told of a credentials file without OAuth data.
pub const NO_OAUTH_OBJECT: &'static str = "credentials file missing claudeAiOauth object";

/// Puts refreshed credentials into a credentials document.
pub fn apply_refresh_to_credentials_json(root: &Json, credentials: &ClaudeOAuthCredentials) -> (r: Result<
    Json,
    ProviderError,
>)
    requires
        credentials.expires_at matches Some(t) ==> FIRST_SECOND <= t.secs <= LAST_SECOND,
    ensures
        match document_after(root@, credentials@) {
            Some(after) => r is Ok && r->Ok_0@ == after,
            None => r is Err && r->Err_0@ == ProviderErrorView::OAuth(NO_OAUTH_OBJECT@),
        },
{
    let top = match root {
        Json::Object(top) => top,
        _ => {
            return Err(ProviderError::OAuth(NO_OAUTH_OBJECT.to_owned()));
        },
    };
    let mut oauth = match top.object("claudeAiOauth") {
        Some(o) => o.clone(),
        None => {
            return Err(ProviderError::OAuth(NO_OAUTH_OBJECT.to_owned()));
        },
    };
    oauth.set("accessToken", Json::Text(credentials.access_token.clone()));
    if let Some(t) = &credentials.refresh_token {
        oauth.set("refreshToken", Json::Text(t.clone()));
    }
    if let Some(t) = credentials.expires_at {
        let ms: i64 = t.secs * 1000 + (t.nanos / 1_000_000) as i64;
        oauth.set("expiresAt", Json::Signed(ms));
    }
    if credentials.scopes.len() > 0 {
        let mut items: Vec<Json> = Vec::new();
        let ghost all = credentials@.scopes.map_values(|s: Seq<char>| JsonValue::Text(s));
        let mut i: usize = 0;
        assert(all.take(0) =~= Seq::empty());
        while i < credentials.scopes.len()
            invariant
                i <= credentials.scopes@.len(),
                all == credentials@.scopes.map_values(|s: Seq<char>| JsonValue::Text(s)),
                items_value(items@) == all.take(i as int),
            decreases credentials.scopes@.len() - i,
        {
            let ghost before = items@;
            items.push(Json::Text(credentials.scopes[i].clone()));
            proof {
                assert(items@.drop_last() =~= before);
                assert(items@.last()@ == all[i as int]);
                assert(all.take(i + 1) =~= all.take(i as int).push(all[i as int]));
            }
            i += 1;
        }
        assert(all.take(i as int) =~= all);
        oauth.set("scopes", Json::Array(items));
    }
    let mut after = top.clone();
    after.set("claudeAiOauth", Json::Object(oauth));
    Ok(Json::Object(after))
}

/// A refresh keeps a document readable.
proof fn lemma_refresh_stays_readable(root: JsonValue, c: OAuthView)
    requires
        is_readable(root),
        document_after(root, c) is Some,
    ensures
        is_readable(document_after(root, c)->Some_0),
{
    let m = root->Object_0;
    let oauth = member_object(m, "claudeAiOauth"@)->Some_0;
    let data = oauth_after(oauth, c);
    assert(m.contains_key("claudeAiOauth"@));
    assert(readable_to(JsonValue::Object(oauth), 126));
    assert forall|k: Seq<char>| #[trigger] data.contains_key(k) implies readable_to(data[k], 125) by {
        if oauth.contains_key(k) {
            assert(readable_to(oauth[k], 125));
        }
        if k == "scopes"@ && c.scopes.len() > 0 {
            let items = c.scopes.map_values(|s: Seq<char>| JsonValue::Text(s));
            assert forall|i: int| 0 <= i < items.len() implies readable_to(#[trigger] items[i], 124) by {
                assert(items[i] is Text);
            }
        }
    }
    assert(readable_to(JsonValue::Object(data), 126));
    let after = m.insert("claudeAiOauth"@, JsonValue::Object(data));
    assert forall|k: Seq<char>| #[trigger] after.contains_key(k) implies readable_to(after[k], 126) by {
        if k != "claudeAiOauth"@ {
            assert(m.contains_key(k));
        }
    }
}

/// The new text of a credentials file after a refresh.
pub fn persisted_credentials(content: &str, credentials: &ClaudeOAuthCredentials) -> (r: Result<
    String,
    ProviderError,
>)
    requires
        credentials.expires_at matches Some(t) ==> FIRST_SECOND <= t.secs <= LAST_SECOND,
    ensures
        match json_parsed(content@) {
            Err(e) => r is Err && r->Err_0@ == ProviderErrorView::OAuth(
                "Failed to parse credentials file: "@ + e,
            ),
            Ok(root) => match document_after(root, credentials@) {
                Some(after) => r is Ok && r->Ok_0@ == json_pretty(after) && reads_as(
                    r->Ok_0@,
                    after,
                ),
                None => r is Err && r->Err_0@ == ProviderErrorView::OAuth(NO_OAUTH_OBJECT@),
            },
        },
{
    match parse_json(content) {
        Err(e) => Err(
            ProviderError::OAuth(concat2("Failed to parse credentials file: ", e.as_str())),
        ),
        Ok(root) => match apply_refresh_to_credentials_json(&root, credentials) {
            Ok(after) => {
                proof {
                    lemma_refresh_stays_readable(root@, credentials@);
                }
                Ok(write_json_pretty(&after))
            },
            Err(e) => Err(e),
        },
    }
}

/// Whether refreshed credentials are written back at all: only with the user's consent, and
/// only where there is a file to write to.
pub fn should_persist(consent: bool, file_exists: bool) -> (r: bool)
    ensures
        r == (consent && file_exists),
{
    consent && file_exists
}

proof fn lemma_key_lengths()
    ensures
        "accessToken"@.len() == 11,
        "refreshToken"@.len() == 12,
        "expiresAt"@.len() == 9,
        "scopes"@.len() == 6,
        "rateLimitTier"@.len() == 13,
{
    reveal_strlit("accessToken");
    reveal_strlit("refreshToken");
    reveal_strlit("expiresAt");
    reveal_strlit("scopes");
    reveal_strlit("rateLimitTier");
}

/// A refresh changes the token fields of `claudeAiOauth` and nothing else.
pub proof fn refresh_touches_only_token_fields(m: Map<Seq<char>, JsonValue>, c: OAuthView)
    requires
        member_object(m, "claudeAiOauth"@) is Some,
    ensures
        ({
            let after = document_after(JsonValue::Object(m), c)->Some_0;
            let oauth = member_object(m, "claudeAiOauth"@)->Some_0;
            let oauth_now = lookup_object(after, "claudeAiOauth"@)->Some_0;
            &&& forall|k: Seq<char>|
                k != "claudeAiOauth"@ ==> #[trigger] lookup(after, k) == member(m, k)
            &&& forall|k: Seq<char>|
                k != "accessToken"@ && k != "refreshToken"@ && k != "expiresAt"@ && k != "scopes"@
                    ==> #[trigger] member(oauth_now, k) == member(oauth, k)
        }),
{
}

proof fn lemma_texts_read_back(texts: Seq<Seq<char>>)
    ensures
        all_texts(texts.map_values(|s: Seq<char>| JsonValue::Text(s))) == Some(texts),
    decreases texts.len(),
{
    let items = texts.map_values(|s: Seq<char>| JsonValue::Text(s));
    if texts.len() > 0 {
        let before = texts.drop_last();
        lemma_texts_read_back(before);
        assert(items.drop_last() =~= before.map_values(|s: Seq<char>| JsonValue::Text(s)));
        assert(before.push(texts.last()) =~= texts);
    } else {
        assert(texts =~= Seq::empty());
    }
}

/// Refreshed credentials as they are read after they were written over `old`: the tokens, the
/// scopes and the end in whole seconds. What the refresh did not say is read as it was.
pub open spec fn refreshed_view(c: OAuthView, old: OAuthDataView, now: Moment) -> OAuthView {
    OAuthView {
        access_token: c.access_token,
        refresh_token: match c.refresh_token {
            Some(t) => Some(t),
            None => old.refresh_token,
        },
        expires_at: match c.expires_at {
            Some(t) => Some(Moment { secs: t.secs, nanos: 0 }),
            None => match old.expires_at {
                Some(n) => Some(expiry(n, now)),
                None => None,
            },
        },
        scopes: if c.scopes.len() > 0 {
            c.scopes
        } else {
            match old.scopes {
                Some(s) => s,
                None => Seq::empty(),
            }
        },
        rate_limit_tier: old.rate_limit_tier,
    }
}

/// Refreshed credentials that were put into a document are read from it. Left out are tokens
/// that are blank or have white space around them, and ends before 1970.
pub proof fn refreshed_credentials_are_read_back(
    tool: Tool,
    m: Map<Seq<char>, JsonValue>,
    c: OAuthView,
    old: OAuthDataView,
    now: Moment,
)
    requires
        member_object(m, "claudeAiOauth"@) matches Some(oauth) && oauth_data_in(oauth) == Some(old),
        c.access_token.len() > 0,
        trimmed(c.access_token) == c.access_token,
        c.expires_at matches Some(t) ==> 0 <= t.secs <= LAST_SECOND && t.nanos < 1_000_000_000,
    ensures
        credentials_in(tool, document_after(JsonValue::Object(m), c)->Some_0, now) == Ok::<
            OAuthView,
            ProviderErrorView,
        >(refreshed_view(c, old, now)),
        oauth_data_in(
            member_object(
                document_after(JsonValue::Object(m), c)->Some_0->Object_0,
                "claudeAiOauth"@,
            )->Some_0,
        ) is Some,
{
    lemma_key_lengths();
    lemma_texts_read_back(c.scopes);
    let oauth = member_object(m, "claudeAiOauth"@)->Some_0;
    let o = oauth_after(oauth, c);
    let after = document_after(JsonValue::Object(m), c)->Some_0;
    assert(text_value(member(o, "accessToken"@)) == Some(Some(c.access_token)));
    assert(text_value(member(o, "refreshToken"@)) == Some(
        match c.refresh_token {
            Some(t) => Some(t),
            None => old.refresh_token,
        },
    ));
    assert(text_value(member(o, "rateLimitTier"@)) == Some(old.rate_limit_tier));
    match c.expires_at {
        Some(t) => {
            let ms = millis(t);
            assert(0 <= ms <= i64::MAX);
            assert(member(o, "expiresAt"@) == Some(JsonValue::Signed(ms as i64)));
            doubles_are_not_rounded(ms as nat, 64);
            two_to_64();
            rounding_keeps_whole_seconds(t.secs as nat, (t.nanos / 1_000_000) as nat);
            assert(as_scaled(JsonValue::Signed(ms as i64)) == Some(ms * ONE));
            assert(number_value(member(o, "expiresAt"@)) == Some(Some(ms * ONE)));
            assert(whole_seconds(ms * ONE) == t.secs);
        },
        None => {
            assert(number_value(member(o, "expiresAt"@)) == Some(old.expires_at));
        },
    }
    if c.scopes.len() > 0 {
        assert(texts_value(member(o, "scopes"@)) == Some(Some(c.scopes)));
    } else {
        assert(texts_value(member(o, "scopes"@)) == Some(old.scopes));
    }
    assert(member_object(after->Object_0, "claudeAiOauth"@) == Some(o));
    assert(oauth_data_in(o) is Some);
}

/// Refreshed credentials are read from a text as well, where that is read as the document they
/// were put into, but for the values of doubles: only an end that was a double, and that the
/// refresh left, may be read differently.
pub proof fn refreshed_credentials_are_read_beside_doubles(
    tool: Tool,
    m: Map<Seq<char>, JsonValue>,
    c: OAuthView,
    old: OAuthDataView,
    now: Moment,
    w: JsonValue,
)
    requires
        member_object(m, "claudeAiOauth"@) matches Some(oauth) && oauth_data_in(oauth) == Some(old),
        c.access_token.len() > 0,
        trimmed(c.access_token) == c.access_token,
        c.expires_at matches Some(t) ==> 0 <= t.secs <= LAST_SECOND && t.nanos < 1_000_000_000,
        alike(w, document_after(JsonValue::Object(m), c)->Some_0),
    ensures
        ({
            let read = credentials_in(tool, w, now);
            let kept_double = c.expires_at is None && member(
                member_object(m, "claudeAiOauth"@)->Some_0,
                "expiresAt"@,
            ) matches Some(JsonValue::Double(_));
            &&& read is Ok
            &&& read->Ok_0 == (OAuthView {
                expires_at: read->Ok_0.expires_at,
                ..refreshed_view(c, old, now)
            })
            &&& read->Ok_0.expires_at is Some == refreshed_view(c, old, now).expires_at is Some
            &&& !kept_double ==> read->Ok_0 == refreshed_view(c, old, now)
        }),
{
    refreshed_credentials_are_read_back(tool, m, c, old, now);
    lemma_key_lengths();
    let n = document_after(JsonValue::Object(m), c)->Some_0->Object_0;
    lemma_alike_members(w->Object_0, n, 127, "claudeAiOauth"@);
    let x = member_object(w->Object_0, "claudeAiOauth"@)->Some_0;
    let y = member_object(n, "claudeAiOauth"@)->Some_0;
    lemma_alike_members(x, y, 126, "accessToken"@);
    lemma_alike_members(x, y, 126, "refreshToken"@);
    lemma_alike_members(x, y, 126, "expiresAt"@);
    lemma_alike_members(x, y, 126, "scopes"@);
    lemma_alike_members(x, y, 126, "rateLimitTier"@);
    lemma_alike_text_value(member(x, "accessToken"@), member(y, "accessToken"@));
    lemma_alike_text_value(member(x, "refreshToken"@), member(y, "refreshToken"@));
    lemma_alike_text_value(member(x, "rateLimitTier"@), member(y, "rateLimitTier"@));
    lemma_alike_texts_value(member(x, "scopes"@), member(y, "scopes"@));
    if x.contains_key("expiresAt"@) {
        assert(alike_to(x["expiresAt"@], y["expiresAt"@], 125));
    }
    assert(credentials_in(tool, JsonValue::Object(n), now) == credentials_of(
        tool,
        oauth_data_in(y)->Some_0,
        now,
    ));
    assert(credentials_in(tool, w, now) == credentials_of(tool, oauth_data_in(x)->Some_0, now));
}

/// Fields that are alike hold the same text.
proof fn lemma_alike_text_value(x: Option<JsonValue>, y: Option<JsonValue>)
    requires
        x is Some == y is Some,
        x is Some ==> alike_to(x->Some_0, y->Some_0, 125),
    ensures
        text_value(x) == text_value(y),
{
}

/// Fields that are alike hold the same texts.
proof fn lemma_alike_texts_value(x: Option<JsonValue>, y: Option<JsonValue>)
    requires
        x is Some == y is Some,
        x is Some ==> alike_to(x->Some_0, y->Some_0, 125),
    ensures
        texts_value(x) == texts_value(y),
{
    if let (Some(JsonValue::Array(a)), Some(JsonValue::Array(b))) = (x, y) {
        lemma_alike_all_texts(a, b);
    }
}

proof fn lemma_alike_all_texts(a: Seq<JsonValue>, b: Seq<JsonValue>)
    requires
        a.len() == b.len(),
        forall|i: int| 0 <= i < a.len() ==> alike_to(#[trigger] a[i], b[i], 124),
    ensures
        all_texts(a) == all_texts(b),
    decreases a.len(),
{
    if a.len() > 0 {
        let x = a.drop_last();
        let y = b.drop_last();
        assert forall|i: int| 0 <= i < x.len() implies alike_to(#[trigger] x[i], y[i], 124) by {
            assert(x[i] == a[i]);
        }
        lemma_alike_all_texts(x, y);
        assert(alike_to(a[a.len() - 1], b[b.len() - 1], 124));
    }
}

/// Of two credentials with known ends the kept ones are chosen exactly where they end later than
/// those just read: what is chosen never ends before the other. Kept ones without a known end are
/// never chosen, and those just read without one give way.
pub proof fn the_credentials_that_end_later_are_chosen(kept: Moment, read: Moment)
    ensures
        kept.secs > read.secs ==> lasts_longer(Some(kept), Some(read)),
        kept.secs < read.secs ==> !lasts_longer(Some(kept), Some(read)),
        kept.secs == read.secs ==> (lasts_longer(Some(kept), Some(read)) <==> kept.nanos
            > read.nanos),
        lasts_longer(Some(kept), None),
        !lasts_longer(None, Some(read)),
        !lasts_longer(None, None),
{
}

/// A token counts as expired five minutes before its end and from then on; before that, and where
/// its end is not known, it does not.
pub proof fn a_token_expires_five_minutes_early(c: OAuthView, end: Moment, now: Moment)
    requires
        now.nanos < 1_000_000_000,
    ensures
        c.expires_at is None ==> !c.expired(now),
        c.expires_at == Some(end) && end.secs < now.secs + 5 * 60 ==> c.expired(now),
        c.expires_at == Some(end) && end.secs > now.secs + 5 * 60 ==> !c.expired(now),
        c.expires_at == Some(end) && end.secs == now.secs + 5 * 60 ==> (c.expired(now) <==> end.nanos
            <= now.nanos),
{
}

/// What is kept for a source is handed out exactly where it ends later than what was just read: what
/// a caller goes on with never ends before the other, where both ends are known.
pub proof fn kept_credentials_are_handed_out_where_they_end_later(
    cache: &SourceTable<ClaudeOAuthCredentials>,
    source: &CredentialSource,
    read: &ClaudeOAuthCredentials,
    r: Option<ClaudeOAuthCredentials>,
)
    requires
        call_ensures(cached_refreshed_if_fresher, (cache, source, read), r),
    ensures
        !cache@.contains_key(source@) ==> r is None,
        r matches Some(c) ==> c@ == cache@[source@]@,
        cache@.contains_key(source@) && cache@[source@].expires_at is Some && read.expires_at is Some
            ==> {
            let kept = cache@[source@].expires_at->Some_0;
            let end = read.expires_at->Some_0;
            &&& kept.secs > end.secs ==> r is Some
            &&& kept.secs == end.secs && kept.nanos > end.nanos ==> r is Some
            &&& kept.secs < end.secs ==> r is None
            &&& kept.secs == end.secs && kept.nanos <= end.nanos ==> r is None
        },
        cache@.contains_key(source@) && cache@[source@].expires_at is None ==> r is None,
        cache@.contains_key(source@) && cache@[source@].expires_at is Some && read.expires_at is None
            ==> r is Some,
{
}

/// Refreshed credentials are written back only with consent, and only to a file that is there.
pub proof fn nothing_is_written_back_without_consent(consent: bool, file_exists: bool, r: bool)
    requires
        call_ensures(should_persist, (consent, file_exists), r),
    ensures
        r <==> consent && file_exists,
{
}

/// A token in the environment goes before every store; without one, and without consent, no store
/// is looked at.
pub proof fn stores_are_looked_at_with_consent_alone(
    tool: &Tool,
    environment: Option<ClaudeOAuthCredentials>,
    consent: bool,
    r: Result<Option<(ClaudeOAuthCredentials, CredentialSource)>, ProviderError>,
)
    requires
        call_ensures(load_before_stores, (tool, environment, consent), r),
    ensures
        environment matches Some(c) ==> r is Ok && r->Ok_0 is Some && r->Ok_0->Some_0.0 == c
            && r->Ok_0->Some_0.1@ == SourceView::Environment,
        environment is None && !consent ==> r is Err,
        environment is None && consent ==> r is Ok && r->Ok_0 is None,
{
}

/// The file goes before the key store. Without either, the file's failure is told, unless the key
/// store holds something that cannot be read.
pub proof fn the_file_goes_before_the_key_store(
    file: Result<ClaudeOAuthCredentials, ProviderError>,
    path: &str,
    keyring: Result<Option<(ClaudeOAuthCredentials, CredentialSource)>, ProviderError>,
    r: Result<(ClaudeOAuthCredentials, CredentialSource), ProviderError>,
)
    requires
        call_ensures(load_from_stores, (file, path, keyring), r),
    ensures
        file is Ok ==> r is Ok && r->Ok_0.0 == file->Ok_0 && r->Ok_0.1@ == SourceView::File(path@),
        file is Err && keyring is Ok && keyring->Ok_0 is Some ==> r is Ok && r->Ok_0
            == keyring->Ok_0->Some_0,
        file is Err && keyring is Err ==> r is Err && r->Err_0 == keyring->Err_0,
        file is Err && keyring is Ok && keyring->Ok_0 is None ==> r is Err && r->Err_0
            == file->Err_0,
{
}

/// A token in the environment counts where it is not blank, without white space around it. It comes
/// without an end and cannot be refreshed.
pub proof fn a_token_in_the_environment_is_taken_as_it_is(
    token: Option<&str>,
    scopes: Option<&str>,
    r: Option<ClaudeOAuthCredentials>,
)
    requires
        call_ensures(load_from_environment, (token, scopes), r),
    ensures
        token is None ==> r is None,
        token matches Some(t) ==> (r is Some <==> trimmed(t@).len() > 0),
        r matches Some(c) ==> {
            &&& c@.access_token == trimmed(token->Some_0@)
            &&& c@.refresh_token is None
            &&& c@.expires_at is None
            &&& c@.rate_limit_tier is None
            &&& scopes is None ==> c@.scopes == seq!["user:profile"@]
            &&& scopes matches Some(s) ==> forall|scope: Seq<char>| #[trigger]
                c@.scopes.contains(scope) ==> scope.len() > 0 && trimmed(scope) == scope
        },
{
    if let Some(s) = scopes {
        if let Some(c) = r {
            let parts = pieces(s@, ',');
            named_scopes_are_the_parts_that_say_something(parts);
            assert forall|scope: Seq<char>| #[trigger] c@.scopes.contains(scope) implies scope.len()
                > 0 && trimmed(scope) == scope by {
                let j = choose|j: int| 0 <= j < parts.len() && trimmed(#[trigger] parts[j]) == scope;
                trimmed_has_no_white_ends(parts[j]);
            }
        }
    }
}

/// The scopes that are named are the parts that are not blank, without white space around them, in
/// their order, and none else.
pub proof fn named_scopes_are_the_parts_that_say_something(parts: Seq<Seq<char>>)
    ensures
        forall|j: int|
            0 <= j < parts.len() && trimmed(#[trigger] parts[j]).len() > 0 ==> named_scopes(
                parts,
            ).contains(trimmed(parts[j])),
        forall|scope: Seq<char>| #[trigger]
            named_scopes(parts).contains(scope) ==> scope.len() > 0 && exists|j: int|
                0 <= j < parts.len() && trimmed(#[trigger] parts[j]) == scope,
        named_scopes(parts).len() <= parts.len(),
        (forall|j: int| 0 <= j < parts.len() ==> trimmed(#[trigger] parts[j]).len() > 0)
            ==> named_scopes(parts).len() == parts.len() && forall|j: int|
            0 <= j < parts.len() ==> named_scopes(parts)[j] == trimmed(#[trigger] parts[j]),
    decreases parts.len(),
{
    if parts.len() > 0 {
        let front = parts.drop_last();
        let all = named_scopes(parts);
        let rest = named_scopes(front);
        named_scopes_are_the_parts_that_say_something(front);
        assert forall|x: Seq<char>| rest.contains(x) implies #[trigger] all.contains(x) by {
            let i = rest.index_of(x);
            assert(all[i] == x);
        }
        assert forall|j: int| 0 <= j < parts.len() && trimmed(#[trigger] parts[j]).len() > 0 implies
            all.contains(trimmed(parts[j])) by {
            if j < front.len() {
                assert(front[j] == parts[j]);
            } else {
                assert(all.last() == trimmed(parts[j]));
            }
        }
        assert forall|x: Seq<char>| #[trigger] all.contains(x) implies x.len() > 0 && exists|j: int|
            0 <= j < parts.len() && trimmed(#[trigger] parts[j]) == x by {
            let i = all.index_of(x);
            if i < rest.len() {
                assert(rest[i] == x);
                assert(rest.contains(x));
                let j = choose|j: int| 0 <= j < front.len() && trimmed(#[trigger] front[j]) == x;
                assert(trimmed(parts[j]) == x);
            } else {
                assert(trimmed(parts[parts.len() - 1]) == x);
            }
        }
        if forall|j: int| 0 <= j < parts.len() ==> trimmed(#[trigger] parts[j]).len() > 0 {
            assert forall|j: int| 0 <= j < front.len() implies trimmed(#[trigger] front[j]).len()
                > 0 by {
                assert(parts[j] == front[j]);
            }
            assert forall|j: int| 0 <= j < parts.len() implies all[j] == trimmed(
                #[trigger] parts[j],
            ) by {
                if j < front.len() {
                    assert(front[j] == parts[j]);
                }
            }
        }
    }
}

/// A list of texts is read where every item is one, and each item is then found at its place.
pub proof fn texts_are_read_in_their_order(items: Seq<JsonValue>)
    ensures
        all_texts(items) is Some <==> forall|i: int|
            0 <= i < items.len() ==> (#[trigger] items[i]) is Text,
        all_texts(items) matches Some(t) ==> t.len() == items.len() && forall|i: int|
            0 <= i < items.len() ==> #[trigger] items[i] == JsonValue::Text(t[i]),
    decreases items.len(),
{
    if items.len() > 0 {
        let front = items.drop_last();
        texts_are_read_in_their_order(front);
        if all_texts(items) is Some {
            let t = all_texts(items)->Some_0;
            assert forall|i: int| 0 <= i < items.len() implies #[trigger] items[i]
                == JsonValue::Text(t[i]) by {
                if i < front.len() {
                    assert(front[i] == items[i]);
                }
            }
        } else {
            if forall|i: int| 0 <= i < items.len() ==> (#[trigger] items[i]) is Text {
                assert forall|i: int| 0 <= i < front.len() implies (#[trigger] front[i]) is Text by {
                    assert(items[i] == front[i]);
                }
                assert(items[items.len() - 1] is Text);
            }
        }
    }
}

/// The OAuth data of an object are its members, each under its own name; one that is absent or null
/// is absent, and one of another kind makes the whole unreadable.
pub proof fn oauth_data_are_the_members(m: Map<Seq<char>, JsonValue>, t: Seq<char>, n: i64)
    ensures
        oauth_data_in(m) matches Some(d) ==> {
            &&& says(m, "accessToken"@, JsonValue::Text(t)) ==> d.access_token == Some(t)
            &&& says(m, "refreshToken"@, JsonValue::Text(t)) ==> d.refresh_token == Some(t)
            &&& says(m, "rateLimitTier"@, JsonValue::Text(t)) ==> d.rate_limit_tier == Some(t)
            &&& says(m, "expiresAt"@, JsonValue::Signed(n)) && -0x20_0000_0000_0000 < n
                < 0x20_0000_0000_0000 ==> d.expires_at == Some(n * 0x1_0000_0000_0000_0000)
            &&& absent(m, "accessToken"@) ==> d.access_token is None
            &&& absent(m, "refreshToken"@) ==> d.refresh_token is None
            &&& absent(m, "rateLimitTier"@) ==> d.rate_limit_tier is None
            &&& absent(m, "expiresAt"@) ==> d.expires_at is None
            &&& absent(m, "scopes"@) ==> d.scopes is None
            &&& m.dom().contains("scopes"@) && m["scopes"@] is Array ==> {
                &&& d.scopes is Some
                &&& d.scopes->Some_0.len() == m["scopes"@]->Array_0.len()
                &&& forall|i: int|
                    0 <= i < d.scopes->Some_0.len() ==> m["scopes"@]->Array_0[i]
                        == JsonValue::Text(#[trigger] d.scopes->Some_0[i])
            }
        },
        says(m, "accessToken"@, JsonValue::Signed(n)) ==> oauth_data_in(m) is None,
        says(m, "refreshToken"@, JsonValue::Signed(n)) ==> oauth_data_in(m) is None,
        says(m, "expiresAt"@, JsonValue::Text(t)) ==> oauth_data_in(m) is None,
        says(m, "scopes"@, JsonValue::Text(t)) ==> oauth_data_in(m) is None,
        absent(m, "accessToken"@) && absent(m, "refreshToken"@) && absent(m, "expiresAt"@) && absent(
            m,
            "scopes"@,
        ) && absent(m, "rateLimitTier"@) ==> oauth_data_in(m) is Some,
{
    if -0x20_0000_0000_0000 < n < 0x20_0000_0000_0000 {
        whole_numbers_stand_for_themselves(n);
    }
    if m.dom().contains("scopes"@) && m["scopes"@] is Array {
        texts_are_read_in_their_order(m["scopes"@]->Array_0);
    }
}

/// Whether an object says nothing under a key, or says that there is nothing.
pub open spec fn absent(m: Map<Seq<char>, JsonValue>, key: Seq<char>) -> bool {
    !m.dom().contains(key) || m[key] == JsonValue::Null
}

/// The end of a token is the second in which its milliseconds lie.
pub proof fn an_end_is_the_second_of_its_milliseconds(secs: nat, millis: nat, now: Moment)
    requires
        secs < 0x20_0000_0000,
        millis < 1000,
    ensures
        expiry(((secs * 1000 + millis) * 0x1_0000_0000_0000_0000) as int, now) == (Moment {
            secs: secs as i64,
            nanos: 0,
        }),
{
    rounding_keeps_whole_seconds(secs, millis);
}

/// Credentials are what the OAuth data say: the token without white space around it, and all else
/// as it stands there. Without a token there are none.
pub proof fn credentials_are_what_the_data_say(tool: Tool, d: OAuthDataView, now: Moment)
    ensures
        d.access_token is None ==> credentials_of(tool, d, now) is Err,
        d.access_token matches Some(t) ==> (credentials_of(tool, d, now) is Ok <==> trimmed(t).len()
            > 0),
        credentials_of(tool, d, now) matches Ok(c) ==> {
            &&& c.access_token == trimmed(d.access_token->Some_0)
            &&& c.refresh_token == d.refresh_token
            &&& c.rate_limit_tier == d.rate_limit_tier
            &&& d.scopes is Some ==> c.scopes == d.scopes->Some_0
            &&& d.scopes is None ==> c.scopes.len() == 0
            &&& d.expires_at is None ==> c.expires_at is None
            &&& d.expires_at matches Some(n) ==> c.expires_at == Some(expiry(n, now))
        },
{
}

/// The credentials of a document are those under `claudeAiOauth`; a document without that member
/// is read at its top.
pub proof fn credentials_stand_beneath_the_top(
    tool: Tool,
    m: Map<Seq<char>, JsonValue>,
    oauth: Map<Seq<char>, JsonValue>,
    now: Moment,
)
    ensures
        says(m, "claudeAiOauth"@, JsonValue::Object(oauth)) && oauth_data_in(oauth) is Some
            ==> credentials_in(tool, JsonValue::Object(m), now) == credentials_of(
            tool,
            oauth_data_in(oauth)->Some_0,
            now,
        ),
        !m.dom().contains("claudeAiOauth"@) && oauth_data_in(m) is Some ==> credentials_in(
            tool,
            JsonValue::Object(m),
            now,
        ) == credentials_of(tool, oauth_data_in(m)->Some_0, now),
        credentials_in(tool, JsonValue::Null, now) is Err,
        credentials_in(tool, JsonValue::Text(Seq::empty()), now) is Err,
{
}

/// The entry of the key store that counts holds something, and none before it does; where none
/// counts, none holds anything.
pub proof fn the_first_filled_entry_counts(entries: Seq<(String, Option<String>)>, i: int)
    requires
        0 <= i,
    ensures
        match first_filled(entries, i) {
            Some(k) => i <= k < entries.len() && fills(entries[k]) && forall|j: int|
                i <= j < k ==> !fills(#[trigger] entries[j]),
            None => forall|j: int| i <= j < entries.len() ==> !fills(#[trigger] entries[j]),
        },
    decreases entries.len() - i,
{
    if i < entries.len() && !fills(entries[i]) {
        the_first_filled_entry_counts(entries, i + 1);
    }
}

/// Whether an entry of the key store holds something that is not blank.
pub open spec fn fills(entry: (String, Option<String>)) -> bool {
    entry.1 is Some && trimmed(entry.1->Some_0@).len() > 0
}

/// A name is looked up once, without white space around it, behind those that were there; a blank
/// one is not looked up.
pub proof fn a_name_is_looked_up_once(names: Seq<Seq<char>>, value: Seq<char>)
    ensures
        trimmed(value).len() > 0 ==> with_candidate(names, value).contains(trimmed(value)),
        trimmed(value).len() == 0 ==> with_candidate(names, value) == names,
        names.contains(trimmed(value)) ==> with_candidate(names, value) == names,
        names.is_prefix_of(with_candidate(names, value)),
        with_candidate(names, value).len() <= names.len() + 1,
{
    let after = with_candidate(names, value);
    assert(names =~= after.take(names.len() as int));
    if trimmed(value).len() > 0 && !names.contains(trimmed(value)) {
        assert(after.last() == trimmed(value));
    }
}

/// The names under which credentials are looked up: first the ones that the environment gives, in
/// their order, then the one that the system reports.
pub proof fn names_are_looked_up_in_their_order(
    user: Seq<char>,
    username: Seq<char>,
    reported: Option<Seq<char>>,
)
    ensures
        trimmed(user).len() > 0 ==> account_names(Some(user), Some(username), reported)[0]
            == trimmed(user),
        trimmed(user).len() > 0 && trimmed(username).len() > 0 && trimmed(username) != trimmed(user)
            ==> account_names(Some(user), Some(username), reported)[1] == trimmed(username),
        reported matches Some(w) ==> trimmed(trimmed(w)).len() > 0 ==> account_names(
            Some(user),
            Some(username),
            reported,
        ).contains(trimmed(trimmed(w))),
        trimmed(username).len() > 0 ==> account_names(None, Some(username), None) =~= seq![
            trimmed(username),
        ],
        account_names(None, None, None).len() == 0,
{
    let none = Seq::<Seq<char>>::empty();
    let a = with_candidate(none, user);
    a_name_is_looked_up_once(none, user);
    if trimmed(user).len() > 0 {
        assert(a =~= seq![trimmed(user)]);
    }
    let b = with_candidate(a, username);
    a_name_is_looked_up_once(a, username);
    if let Some(w) = reported {
        let t = trimmed(w);
        let c = with_candidate(b, t);
        a_name_is_looked_up_once(b, t);
        let d = with_tail(c, t, "\\"@);
        let e = with_tail(d, t, "/"@);
        lemma_tail_keeps(c, t, "\\"@);
        lemma_tail_keeps(d, t, "/"@);
        if trimmed(t).len() > 0 {
            let i = c.index_of(trimmed(t));
            assert(d[i] == c[i]);
            assert(e[i] == d[i]);
        }
    }
}

proof fn lemma_tail_keeps(names: Seq<Seq<char>>, name: Seq<char>, separator: Seq<char>)
    ensures
        names.is_prefix_of(with_tail(names, name, separator)),
{
    if let Some((_, tail)) = parted_last(name, separator) {
        a_name_is_looked_up_once(names, tail);
    }
    assert(names =~= names.take(names.len() as int));
}

/// Refreshed credentials are written under their own names: the new token, the new refresh token
/// and end where there are any, and the scopes where there are any. What there is none of stays as
/// it was.
pub proof fn refreshed_credentials_are_written_under_their_names(
    oauth: Map<Seq<char>, JsonValue>,
    c: OAuthView,
    i: int,
)
    ensures
        ({
            let r = oauth_after(oauth, c);
            &&& says(r, "accessToken"@, JsonValue::Text(c.access_token))
            &&& c.refresh_token matches Some(t) ==> says(r, "refreshToken"@, JsonValue::Text(t))
            &&& c.refresh_token is None ==> member(r, "refreshToken"@) == member(
                oauth,
                "refreshToken"@,
            )
            &&& c.expires_at matches Some(t) ==> says(
                r,
                "expiresAt"@,
                JsonValue::Signed((t.secs * 1000 + t.nanos as int / 1_000_000) as i64),
            )
            &&& c.expires_at is None ==> member(r, "expiresAt"@) == member(oauth, "expiresAt"@)
            &&& c.scopes.len() == 0 ==> member(r, "scopes"@) == member(oauth, "scopes"@)
            &&& c.scopes.len() > 0 ==> {
                &&& r.dom().contains("scopes"@)
                &&& r["scopes"@] is Array
                &&& r["scopes"@]->Array_0.len() == c.scopes.len()
                &&& 0 <= i < c.scopes.len() ==> r["scopes"@]->Array_0[i] == JsonValue::Text(
                    c.scopes[i],
                )
            }
            &&& member(r, "rateLimitTier"@) == member(oauth, "rateLimitTier"@)
        }),
{
    lemma_key_lengths();
}

/// Refreshed credentials are put where the credentials stood: under `claudeAiOauth`, and nowhere
/// where that is not there.
pub proof fn refreshed_credentials_go_where_the_old_ones_stood(
    m: Map<Seq<char>, JsonValue>,
    oauth: Map<Seq<char>, JsonValue>,
    c: OAuthView,
)
    ensures
        says(m, "claudeAiOauth"@, JsonValue::Object(oauth)) ==> document_after(
            JsonValue::Object(m),
            c,
        ) is Some && says(
            document_after(JsonValue::Object(m), c)->Some_0->Object_0,
            "claudeAiOauth"@,
            JsonValue::Object(oauth_after(oauth, c)),
        ),
        !m.dom().contains("claudeAiOauth"@) ==> document_after(JsonValue::Object(m), c) is None,
        document_after(JsonValue::Null, c) is None,
{
}

/// The credentials file lies in the directory of the configuration.
pub proof fn the_credentials_lie_beside_the_configuration(
    tool: &Tool,
    dir: Result<String, AccountError>,
    separator: char,
    r: Result<String, ProviderError>,
)
    requires
        call_ensures(credentials_path, (tool, dir, separator), r),
    ensures
        r is Ok <==> dir is Ok,
        dir matches Ok(d) ==> d@.is_prefix_of(r->Ok_0@) && ".credentials.json"@.is_suffix_of(
            r->Ok_0@,
        ),
{
    if let Ok(d) = dir {
        a_path_leads_to_its_part(d@, ".credentials.json"@, separator);
    }
}

/// Credentials are read from the file where it can be read, and every other case is an error.
pub proof fn credentials_are_read_from_the_file(
    tool: &Tool,
    file: &FileRead,
    now: Moment,
    r: Result<ClaudeOAuthCredentials, ProviderError>,
)
    requires
        call_ensures(load_from_file, (tool, file, now), r),
    ensures
        *file !is Contents ==> r is Err,
        *file is Contents ==> oauth_seen(r) == credentials_in_text(
            *tool,
            file->Contents_0@,
            now,
        ),
        *file is Contents && json_parsed(file->Contents_0@) is Err ==> r is Err,
{
}

/// The key store gives the credentials of the first entry that holds something, under the name of
/// that entry; without one it gives none.
pub proof fn the_key_store_gives_its_first_filled_entry(
    tool: &Tool,
    entries: &Vec<(String, Option<String>)>,
    now: Moment,
    k: int,
    r: Result<Option<(ClaudeOAuthCredentials, CredentialSource)>, ProviderError>,
)
    requires
        call_ensures(load_from_keyring, (tool, entries, now), r),
    ensures
        (forall|j: int| 0 <= j < entries@.len() ==> !fills(#[trigger] entries@[j])) ==> r is Ok
            && r->Ok_0 is None,
        0 <= k < entries@.len() && fills(entries@[k]) && (forall|j: int|
            0 <= j < k ==> !fills(#[trigger] entries@[j])) ==> {
            let read = credentials_in_text(*tool, entries@[k].1->Some_0@, now);
            &&& read is Ok ==> r is Ok && r->Ok_0 is Some && r->Ok_0->Some_0.0@ == read->Ok_0
                && r->Ok_0->Some_0.1@ == SourceView::Keyring(entries@[k].0@)
            &&& read is Err ==> r is Err
        },
{
    the_first_filled_entry_counts(entries@, 0);
    if let Some(i) = first_filled(entries@, 0) {
        assert(fills(entries@[i]));
    }
}

} // verus!
