//! Usage of a subscription: when tokens are refreshed, when requests are held back and
//! what a reply says.

use vstd::prelude::*;
use vstd::string::StrSliceExecFns;
use crate::claude::credentials_store::{cached_refreshed_if_fresher, clear_cache, lasts_longer, store_refreshed, ClaudeOAuthCredentials, CredentialSource, OAuthView, SourceTable, SourceView};
use crate::claude::tool::Tool;
use crate::claude::errors::{ProviderError, ProviderErrorView};
use crate::moment::Moment;
use crate::outside::{formatted, is_instant, naive_moment, parse_naive, parse_rfc2822, parse_rfc3339, rfc2822_moment, rfc3339_moment, write_formatted, NAIVE_FORMAT, RESET_FORMAT};
use crate::quantity::Quantity;
use crate::text::{ascii_lower, concat2, concat3, contains, decimal_wide, digits, digits_are_read_back, digits_have_no_white_ends, glimpsed, has_at, has_part, join, joined, parse_unsigned, seen, same, to_ascii_lower, trim, trimmed, unsigned_value, views};

verus! {

/// Why a refresh failed.
#[derive(Clone, Copy, Debug, PartialEq, Eq, Structural)]
pub enum RefreshFailureKind {
    /// The refresh token was rejected; trying again with it cannot help.
    Terminal,
    /// Trying again later may help.
    Transient,
}

/// A failed refresh.
#[derive(Debug)]
pub struct RefreshBackoffEntry {
    /// Until when a transient failure holds refreshes back, in nanoseconds of the monotonic
    /// clock. A terminal one has no such time.
    pub until: Option<u128>,
    pub kind: RefreshFailureKind,
    /// The refresh token that was rejected.
    pub fingerprint: Option<String>,
}

/// How long a transient failure holds refreshes back, in nanoseconds.
pub const TRANSIENT_REFRESH_BACKOFF: u128 = 300_000_000_000;

/// Whether a failure still holds back a refresh with the given token at `now`.
pub open spec fn holds_back(entry: RefreshBackoffEntry, now: u128, token: Option<Seq<char>>) -> bool {
    match entry.kind {
        RefreshFailureKind::Terminal => entry.fingerprint is None || token == seen(
            entry.fingerprint,
        ),
        RefreshFailureKind::Transient => entry.until is None || now < entry.until->Some_0,
    }
}

/// What holds back a refresh of the credentials from `source`. A failure that no longer does
/// is forgotten.
pub fn active_refresh_backoff(
    backoff: &mut SourceTable<RefreshBackoffEntry>,
    source: &CredentialSource,
    now: u128,
    current_refresh_token: Option<&str>,
) -> (r: Option<RefreshFailureKind>)
    ensures
        ({
            let token = glimpsed(current_refresh_token);
            let held = old(backoff)@.contains_key(source@) && holds_back(
                old(backoff)@[source@],
                now,
                token,
            );
            &&& r == (if held {
                Some(old(backoff)@[source@].kind)
            } else {
                None
            })
            &&& final(backoff)@ == (if held {
                old(backoff)@
            } else {
                old(backoff)@.remove(source@)
            })
        }),
{
    let found = match backoff.get(source) {
        None => None,
        Some(entry) => {
            let held = match entry.kind {
                RefreshFailureKind::Terminal => match (&entry.fingerprint, current_refresh_token) {
                    (None, _) => true,
                    (Some(fp), Some(token)) => same(fp.as_str(), token),
                    (Some(_), None) => false,
                },
                RefreshFailureKind::Transient => match entry.until {
                    Some(until) => now < until,
                    None => true,
                },
            };
            if held {
                Some(entry.kind)
            } else {
                None
            }
        },
    };
    if found.is_none() {
        backoff.remove(source);
    }
    found
}

/// What is kept of a failed refresh: for a terminal one the token, for a transient one the
/// time until which it counts.
pub open spec fn backoff_of(kind: RefreshFailureKind, now: u128, token: Option<Seq<char>>, e: RefreshBackoffEntry) -> bool {
    &&& e.kind == kind
    &&& match kind {
        RefreshFailureKind::Terminal => e.until is None && seen(e.fingerprint) == token,
        RefreshFailureKind::Transient => e.until == Some((now + TRANSIENT_REFRESH_BACKOFF) as u128)
            && e.fingerprint is None,
    }
}

/// Keeps a failed refresh of the credentials from `source`.
pub fn record_refresh_backoff(
    backoff: &mut SourceTable<RefreshBackoffEntry>,
    source: &CredentialSource,
    kind: RefreshFailureKind,
    now: u128,
    current_refresh_token: Option<&str>,
)
    requires
        now + TRANSIENT_REFRESH_BACKOFF <= u128::MAX,
    ensures
        exists|e: RefreshBackoffEntry|
            #[trigger] backoff_of(kind, now, glimpsed(current_refresh_token), e) && final(backoff)@
                == old(backoff)@.insert(source@, e),
{
    let (until, fingerprint) = match kind {
        RefreshFailureKind::Terminal => (
            None,
            match current_refresh_token {
                Some(t) => Some(t.to_owned()),
                None => None,
            },
        ),
        RefreshFailureKind::Transient => (Some(now + TRANSIENT_REFRESH_BACKOFF), None),
    };
    let entry = RefreshBackoffEntry { until, kind, fingerprint };
    assert(backoff_of(kind, now, glimpsed(current_refresh_token), entry));
    backoff.insert(source, entry);
}

/// Forgets the failed refresh of the credentials from `source`.
pub fn clear_refresh_backoff(
    backoff: &mut SourceTable<RefreshBackoffEntry>,
    source: &CredentialSource,
)
    ensures
        final(backoff)@ == old(backoff)@.remove(source@),
{
    backoff.remove(source);
}

/// Forgets what is kept of the account whose credentials are in the file at `credential_path`.
pub fn clear_account_cache(
    cache: &mut SourceTable<ClaudeOAuthCredentials>,
    backoff: &mut SourceTable<RefreshBackoffEntry>,
    credential_path: &str,
)
    ensures
        final(cache)@ == Map::<SourceView, ClaudeOAuthCredentials>::empty(),
        final(backoff)@ == old(backoff)@.remove(SourceView::File(credential_path@)),
{
    clear_cache(cache);
    clear_refresh_backoff(backoff, &CredentialSource::File(credential_path.to_owned()));
}

/// A rejected token is never tried again, however late it is, while any other token may be
/// tried at once.
pub proof fn terminal_failure_holds_until_the_token_changes(
    e: RefreshBackoffEntry,
    recorded: u128,
    token: Seq<char>,
    other: Seq<char>,
    now: u128,
)
    requires
        backoff_of(RefreshFailureKind::Terminal, recorded, Some(token), e),
        other != token,
    ensures
        holds_back(e, now, Some(token)),
        !holds_back(e, now, Some(other)),
        !holds_back(e, now, None),
{
}

/// A transient failure holds refreshes back for five minutes, with any token, and no longer.
pub proof fn transient_failure_holds_for_five_minutes(
    e: RefreshBackoffEntry,
    recorded: u128,
    kept: Option<Seq<char>>,
    now: u128,
    token: Option<Seq<char>>,
)
    requires
        recorded + TRANSIENT_REFRESH_BACKOFF <= u128::MAX,
        backoff_of(RefreshFailureKind::Transient, recorded, kept, e),
    ensures
        holds_back(e, now, token) <==> now < recorded + TRANSIENT_REFRESH_BACKOFF,
{
}

/// What the user is told where the refresh token was rejected.
pub fn terminal_refresh_message(tool: &Tool) -> (r: String)
    ensures
        r@ == tool.refresh_rejected(),
{
    tool.say_refresh_rejected()
}

/// What the user is told while refreshes are held back.
pub fn refresh_cooldown_message(tool: &Tool) -> (r: String)
    ensures
        r@ == tool.refresh_cooling(),
{
    tool.say_refresh_cooling()
}

/// What the user is told of a failed refresh.
pub open spec fn failure_text(tool: Tool, kind: RefreshFailureKind) -> Seq<char> {
    match kind {
        RefreshFailureKind::Terminal => tool.refresh_rejected(),
        RefreshFailureKind::Transient => tool.refresh_cooling(),
    }
}

/// What the user is told of a failed refresh.
pub fn failure_message(tool: &Tool, kind: RefreshFailureKind) -> (r: String)
    ensures
        r@ == failure_text(*tool, kind),
{
    match kind {
        RefreshFailureKind::Terminal => terminal_refresh_message(tool),
        RefreshFailureKind::Transient => refresh_cooldown_message(tool),
    }
}

/// Until when usage requests are held back, in nanoseconds of the monotonic clock.
#[derive(Clone, Copy, Debug, PartialEq, Eq, Structural)]
pub struct RateLimitGate {
    pub until: Option<u128>,
}

/// How long requests are held back where the server does not say, in nanoseconds.
pub const DEFAULT_RATE_LIMIT_BACKOFF: u128 = 300_000_000_000;

impl RateLimitGate {
    /// How long requests are still held back.
    pub open spec fn left(self, now: u128) -> Option<u128> {
        match self.until {
            Some(until) => if until <= now {
                None
            } else {
                Some((until - now) as u128)
            },
            None => None,
        }
    }

    pub fn new() -> (r: RateLimitGate)
        ensures
            r.until is None,
    {
        RateLimitGate { until: None }
    }

    /// How long requests are still held back. A time that has passed is forgotten.
    pub fn rate_limit_backoff_remaining(&mut self, now: u128) -> (r: Option<u128>)
        ensures
            r == old(self).left(now),
            final(self).until == (if r is None {
                None
            } else {
                old(self).until
            }),
    {
        match self.until {
            None => None,
            Some(until) => {
                if until <= now {
                    self.until = None;
                    None
                } else {
                    Some(until - now)
                }
            },
        }
    }

    /// Holds requests back for `duration` from `now` on.
    pub fn record_rate_limit(&mut self, duration: u128, now: u128)
        requires
            now + duration <= u128::MAX,
        ensures
            final(self).until == Some((now + duration) as u128),
    {
        self.until = Some(now + duration);
    }

    /// Lets requests through again.
    pub fn clear_rate_limit(&mut self)
        ensures
            final(self).until is None,
    {
        self.until = None;
    }
}

/// After a limit of some length was met, requests are held back for exactly that long.
pub proof fn rate_limit_holds_for_its_length(now: u128, duration: u128, later: u128)
    requires
        now + duration <= u128::MAX,
        now <= later,
    ensures
        (RateLimitGate { until: Some((now + duration) as u128) }).left(later) is Some <==> later
            < now + duration,
{
}

/// How long a server asks to wait, in nanoseconds: a number of seconds, else the time up to a
/// date in the future, else five minutes. A date that follows a leap second at the end of a day by
/// less than the rest of that second is not in the future.
pub open spec fn retry_after(value: Option<Seq<char>>, now: Moment) -> int {
    match value {
        None => DEFAULT_RATE_LIMIT_BACKOFF as int,
        Some(v) => match unsigned_value(trimmed(v)) {
            Some(seconds) => seconds * 1_000_000_000,
            None => match rfc2822_moment(trimmed(v)) {
                Some(date) => if now.precedes(date) && date.since(now) >= 0 {
                    date.since(now)
                } else {
                    DEFAULT_RATE_LIMIT_BACKOFF as int
                },
                None => DEFAULT_RATE_LIMIT_BACKOFF as int,
            },
        },
    }
}

/// How long a server asks to wait, given the date that its header was read as.
pub fn retry_after_with_date(value: Option<&str>, date: Option<Moment>, now: Moment) -> (r: u128)
    ensures
        r == (match value {
            None => DEFAULT_RATE_LIMIT_BACKOFF as int,
            Some(v) => match unsigned_value(trimmed(v@)) {
                Some(seconds) => seconds * 1_000_000_000,
                None => match date {
                    Some(date) => if now.precedes(date) && date.since(now) >= 0 {
                        date.since(now)
                    } else {
                        DEFAULT_RATE_LIMIT_BACKOFF as int
                    },
                    None => DEFAULT_RATE_LIMIT_BACKOFF as int,
                },
            },
        }),
{
    let v = match value {
        Some(v) => trim(v),
        None => {
            return DEFAULT_RATE_LIMIT_BACKOFF;
        },
    };
    if let Some(seconds) = parse_unsigned(v) {
        return seconds as u128 * 1_000_000_000;
    }
    match date {
        Some(date) => {
            let left: i128 = date.nanos_since(now);
            if now.before(date) && left >= 0 {
                left as u128
            } else {
                DEFAULT_RATE_LIMIT_BACKOFF
            }
        },
        None => DEFAULT_RATE_LIMIT_BACKOFF,
    }
}

/// How long a server asks to wait.
pub fn retry_after_duration(value: Option<&str>, now: Moment) -> (r: u128)
    ensures
        r == retry_after(glimpsed(value), now),
        r < 0x1_0000_0000_0000_0000_0000_0000,
{
    let date = match value {
        Some(v) => parse_rfc2822(trim(v)),
        None => None,
    };
    retry_after_with_date(value, date, now)
}

/// What the user is told while requests are held back: for how many seconds, at least one.
pub open spec fn rate_limited_text(tool: Tool, duration: int) -> Seq<char> {
    let seconds = duration / 1_000_000_000;
    tool.rate_limited(
        digits(
            (if seconds < 1 {
                1
            } else {
                seconds
            }) as nat,
        ),
    )
}

/// What the user is told while requests are held back for `duration` more.
pub fn rate_limited_error(tool: &Tool, duration: u128) -> (r: ProviderError)
    ensures
        r@ == ProviderErrorView::OAuth(rate_limited_text(*tool, duration as int)),
{
    let seconds: u128 = duration / 1_000_000_000;
    let shown: u128 = if seconds < 1 { 1 } else { seconds };
    ProviderError::OAuth(tool.say_rate_limited(decimal_wide(shown).as_str()))
}

/// What keeps a usage request from being sent, whether or not requests are held back.
pub open spec fn unusable(tool: Tool, c: OAuthView, now: Moment) -> Option<ProviderErrorView> {
    if c.expired(now) {
        Some(ProviderErrorView::OAuthExpired(tool.token_expired()))
    } else if c.scopes.len() > 0 && !c.scoped("user:profile"@) {
        Some(
            ProviderErrorView::OAuth(
                tool.scope_absent(joined(c.scopes, ", "@)),
            ),
        )
    } else {
        None
    }
}

/// Whether a usage request may be sent: the token is good, carries the scope that it needs,
/// and requests are not held back.
pub fn before_usage_request(
    tool: &Tool,
    credentials: &ClaudeOAuthCredentials,
    now: Moment,
    gate: &mut RateLimitGate,
    instant: u128,
) -> (r: Result<(), ProviderError>)
    ensures
        match unusable(*tool, credentials@, now) {
            Some(e) => r is Err && r->Err_0@ == e && *final(gate) == *old(gate),
            None => match old(gate).left(instant) {
                Some(left) => r is Err && r->Err_0@ == ProviderErrorView::OAuth(
                    rate_limited_text(*tool, left as int),
                ) && *final(gate) == *old(gate),
                None => r is Ok && final(gate).until is None,
            },
        },
{
    if credentials.is_expired_at(now) {
        return Err(
            ProviderError::OAuthExpired(tool.say_token_expired()),
        );
    }
    if credentials.scopes.len() > 0 && !credentials.has_scope("user:profile") {
        return Err(
            ProviderError::OAuth(
                tool.say_scope_absent(join(credentials.scopes.as_slice(), ", ").as_str()),
            ),
        );
    }
    match gate.rate_limit_backoff_remaining(instant) {
        Some(left) => Err(rate_limited_error(tool, left)),
        None => Ok(()),
    }
}

/// A reply says that the token was revoked.
pub open spec fn says_revoked(body: Seq<char>) -> bool {
    let lower = ascii_lower(body);
    has_part(lower, "revoked"@) || has_part(lower, "invalid_grant"@) || has_part(
        lower,
        "token_revoked"@,
    )
}

/// The first 200 characters.
pub open spec fn shortened(body: Seq<char>) -> Seq<char> {
    if body.len() > 200 {
        body.take(200)
    } else {
        body
    }
}

/// What a reply to a usage request that is no success means. `wait` is how long the server
/// asks to wait.
pub open spec fn refusal(tool: Tool, status: u16, status_text: Seq<char>, body: Seq<char>, wait: int) -> ProviderErrorView {
    if (status == 401 || status == 403) && says_revoked(body) {
        ProviderErrorView::OAuthRevoked("OAuth token was revoked. The CLI fallback will be used."@)
    } else if status == 401 {
        ProviderErrorView::OAuthExpired(
            tool.token_invalid(),
        )
    } else if status == 403 && has_part(body, "user:profile"@) {
        ProviderErrorView::OAuth(
            tool.scope_refused(),
        )
    } else if status == 429 {
        ProviderErrorView::OAuth(rate_limited_text(tool, wait))
    } else {
        ProviderErrorView::OAuth("API error "@ + status_text + ": "@ + shortened(body))
    }
}

/// Takes a reply to a usage request that is no success: the error that it stands for. After
/// too many requests further ones are held back for as long as the server asks.
pub fn usage_refused(
    tool: &Tool,
    status: u16,
    status_text: &str,
    body: &str,
    retry_after_header: Option<&str>,
    now: Moment,
    gate: &mut RateLimitGate,
    instant: u128,
) -> (r: ProviderError)
    requires
        instant <= 0x1_0000_0000_0000_0000_0000_0000,
    ensures
        ({
            let wait = retry_after(glimpsed(retry_after_header), now);
            &&& r@ == refusal(*tool, status, status_text@, body@, wait)
            &&& final(gate).until == (if status == 429 {
                Some((instant + wait) as u128)
            } else {
                old(gate).until
            })
        }),
{
    let wait: u128 = retry_after_duration(retry_after_header, now);
    if status == 401 || status == 403 {
        let lower = to_ascii_lower(body);
        if contains(lower.as_str(), "revoked") || contains(lower.as_str(), "invalid_grant")
            || contains(lower.as_str(), "token_revoked") {
            return ProviderError::OAuthRevoked(
                "OAuth token was revoked. The CLI fallback will be used.".to_owned(),
            );
        }
    }
    if status == 401 {
        return ProviderError::OAuthExpired(
            tool.say_token_invalid(),
        );
    }
    if status == 403 && contains(body, "user:profile") {
        return ProviderError::OAuth(
            tool.say_scope_refused(),
        );
    }
    if status == 429 {
        gate.record_rate_limit(wait, instant);
        return rate_limited_error(tool, wait);
    }
    let n = body.unicode_len();
    let shown = if n > 200 { body.substring_char(0, 200) } else { body };
    assert(shown@ =~= shortened(body@));
    let head = concat3("API error ", status_text, ": ");
    ProviderError::OAuth(concat2(head.as_str(), shown))
}

/// What a usage reply that cannot be read means.
pub fn unreadable_usage(error: &str) -> (r: ProviderError)
    ensures
        r@ == ProviderErrorView::Parse("Failed to parse OAuth response: "@ + error@),
{
    ProviderError::Parse(concat2("Failed to parse OAuth response: ", error))
}

/// The credentials that a bare access token stands for.
pub fn access_token_credentials(tool: &Tool, access_token: &str) -> (r: Result<
    ClaudeOAuthCredentials,
    ProviderError,
>)
    ensures
        r is Ok <==> trimmed(access_token@).len() > 0,
        r matches Ok(c) ==> c@ == (OAuthView {
            access_token: trimmed(access_token@),
            refresh_token: None,
            expires_at: None,
            scopes: seq!["user:profile"@],
            rate_limit_tier: None,
        }),
        r matches Err(e) ==> e@ == ProviderErrorView::OAuth(tool.access_token_empty()),
{
    let token = trim(access_token);
    if token.is_empty() {
        return Err(ProviderError::OAuth(tool.say_access_token_empty()));
    }
    let mut scopes: Vec<String> = Vec::new();
    scopes.push("user:profile".to_owned());
    assert(views(scopes@) =~= seq!["user:profile"@]);
    Ok(
        ClaudeOAuthCredentials {
            access_token: token.to_owned(),
            refresh_token: None,
            expires_at: None,
            scopes,
            rate_limit_tier: None,
        },
    )
}

/// A usage window of a reply.
#[derive(Debug)]
pub struct UsageWindow {
    /// In percent: one is one percent.
    pub utilization: Option<Quantity>,
    pub resets_at: Option<String>,
}

/// A usage reply, without its list of limits.
#[derive(Debug)]
pub struct OAuthUsageResponse {
    pub five_hour: Option<UsageWindow>,
    pub seven_day: Option<UsageWindow>,
    pub seven_day_sonnet: Option<UsageWindow>,
    pub seven_day_opus: Option<UsageWindow>,
    pub seven_day_design: Option<UsageWindow>,
    pub seven_day_routines: Option<UsageWindow>,
    pub extra_usage: Option<ExtraUsage>,
}

/// Credits on top of the subscription.
#[derive(Debug)]
pub struct ExtraUsage {
    pub is_enabled: Option<bool>,
    pub used_credits: Option<Quantity>,
    pub monthly_limit: Option<Quantity>,
    pub currency: Option<String>,
}

/// A quota window as it is shown.
#[derive(Debug)]
pub struct RateWindow {
    pub used_percent: Quantity,
    pub window_minutes: Option<u32>,
    pub resets_at: Option<Moment>,
    pub reset_description: Option<String>,
}

#[verifier::ext_equal]
pub struct RateWindowView {
    pub used_percent: Quantity,
    pub window_minutes: Option<u32>,
    pub resets_at: Option<Moment>,
    pub reset_description: Option<Seq<char>>,
}

impl View for RateWindow {
    type V = RateWindowView;

    open spec fn view(&self) -> RateWindowView {
        RateWindowView {
            used_percent: self.used_percent,
            window_minutes: self.window_minutes,
            resets_at: self.resets_at,
            reset_description: seen(self.reset_description),
        }
    }
}

/// A quota window with a name.
#[derive(Debug)]
pub struct NamedRateWindow {
    pub id: String,
    pub title: String,
    pub window: RateWindow,
}

#[verifier::ext_equal]
pub struct NamedWindowView {
    pub id: Seq<char>,
    pub title: Seq<char>,
    pub window: RateWindowView,
}

impl View for NamedRateWindow {
    type V = NamedWindowView;

    open spec fn view(&self) -> NamedWindowView {
        NamedWindowView { id: self.id@, title: self.title@, window: self.window@ }
    }
}

pub open spec fn named_views(v: Seq<NamedRateWindow>) -> Seq<NamedWindowView> {
    v.map_values(|w: NamedRateWindow| w@)
}

/// What is shown of a subscription's usage.
#[derive(Debug)]
pub struct UsageSnapshot {
    pub primary: RateWindow,
    pub secondary: Option<RateWindow>,
    pub model_specific: Option<RateWindow>,
    pub extra_rate_windows: Vec<NamedRateWindow>,
    pub login_method: Option<String>,
}

/// The instant that a text holds: with an offset, else without one and taken as UTC.
pub open spec fn iso_moment(s: Seq<char>) -> Option<Moment> {
    match rfc3339_moment(s) {
        Some(t) => Some(t),
        None => naive_moment(s, NAIVE_FORMAT@),
    }
}

/// Reads an instant.
pub fn parse_iso8601_date(s: &str) -> (r: Option<Moment>)
    ensures
        r == iso_moment(s@),
        r matches Some(t) ==> is_instant(t),
{
    match parse_rfc3339(s) {
        Some(t) => Some(t),
        None => parse_naive(s, NAIVE_FORMAT),
    }
}

/// The window that a usage window is shown as, `resets_at` being the instant in it.
pub open spec fn shown_window(
    utilization: Quantity,
    minutes: Option<u32>,
    resets_at: Option<Moment>,
) -> RateWindowView {
    RateWindowView {
        used_percent: utilization,
        window_minutes: minutes,
        resets_at,
        reset_description: match resets_at {
            Some(t) => Some(formatted(t, RESET_FORMAT@)),
            None => None,
        },
    }
}

/// The window that a usage window is shown as; `None` where its utilization is not given.
pub open spec fn rate_window(w: UsageWindow, minutes: Option<u32>) -> Option<RateWindowView> {
    match w.utilization {
        None => None,
        Some(u) => Some(
            shown_window(
                u,
                minutes,
                match w.resets_at {
                    Some(s) => iso_moment(s@),
                    None => None,
                },
            ),
        ),
    }
}

pub open spec fn optional_window(w: Option<UsageWindow>, minutes: Option<u32>) -> Option<
    RateWindowView,
> {
    match w {
        Some(w) => rate_window(w, minutes),
        None => None,
    }
}

pub open spec fn window_seen(w: Option<RateWindow>) -> Option<RateWindowView> {
    match w {
        Some(w) => Some(w@),
        None => None,
    }
}

/// The window that a usage window is shown as.
pub fn to_rate_window(window: &UsageWindow, window_minutes: Option<u32>) -> (r: Option<RateWindow>)
    ensures
        window_seen(r) == rate_window(*window, window_minutes),
{
    let utilization = match window.utilization {
        Some(u) => u,
        None => {
            return None;
        },
    };
    let resets_at = match &window.resets_at {
        Some(s) => parse_iso8601_date(s.as_str()),
        None => None,
    };
    let reset_description = match resets_at {
        Some(t) => write_formatted(t, RESET_FORMAT),
        None => None,
    };
    Some(RateWindow { used_percent: utilization, window_minutes, resets_at, reset_description })
}

fn window_or_none(window: &Option<UsageWindow>, window_minutes: Option<u32>) -> (r: Option<RateWindow>)
    ensures
        window_seen(r) == optional_window(*window, window_minutes),
{
    match window {
        Some(w) => to_rate_window(w, window_minutes),
        None => None,
    }
}

/// The first of two windows that is there.
pub open spec fn window_or(a: Option<RateWindowView>, b: Option<RateWindowView>) -> Option<
    RateWindowView,
> {
    if a is Some {
        a
    } else {
        b
    }
}

/// The window that is shown where nothing is known: nothing used.
pub open spec fn empty_window() -> RateWindowView {
    RateWindowView {
        used_percent: Quantity { scaled: 0 },
        window_minutes: None,
        resets_at: None,
        reset_description: None,
    }
}

/// What is shown of a usage reply. `session`, `weekly_all` and `scoped` are the windows in
/// its list of limits, which go before the older fields of the reply; `plan` is the name of
/// the plan behind the credentials' tier.
pub fn build_usage_snapshot_with_options(
    tool: &Tool,
    response: &OAuthUsageResponse,
    session: Option<RateWindow>,
    weekly_all: Option<RateWindow>,
    scoped: Vec<NamedRateWindow>,
    plan: Option<String>,
    show_routines: bool,
) -> (r: UsageSnapshot)
    ensures
        Some(r.primary@) == window_or(
            window_or(window_seen(session), optional_window(response.five_hour, Some(300))),
            Some(empty_window()),
        ),
        window_seen(r.secondary) == window_or(
            window_seen(weekly_all),
            optional_window(response.seven_day, Some(10080)),
        ),
        window_seen(r.model_specific) == window_or(
            optional_window(response.seven_day_opus, Some(10080)),
            optional_window(response.seven_day_sonnet, Some(10080)),
        ),
        named_views(r.extra_rate_windows@) == named_views(scoped@) + (match optional_window(
            response.seven_day_routines,
            Some(10080),
        ) {
            Some(w) => if show_routines {
                seq![
                    NamedWindowView {
                        id: tool.routines_id(),
                        title: "Daily Routines"@,
                        window: w,
                    },
                ]
            } else {
                Seq::empty()
            },
            None => Seq::empty(),
        }),
        seen(r.login_method) == Some(
            match plan {
                Some(p) => p@,
                None => tool.oauth_login(),
            },
        ),
{
    let primary = match session {
        Some(w) => w,
        None => match window_or_none(&response.five_hour, Some(300)) {
            Some(w) => w,
            None => RateWindow {
                used_percent: Quantity { scaled: 0 },
                window_minutes: None,
                resets_at: None,
                reset_description: None,
            },
        },
    };
    let secondary = match weekly_all {
        Some(w) => Some(w),
        None => window_or_none(&response.seven_day, Some(10080)),
    };
    let model_specific = match window_or_none(&response.seven_day_opus, Some(10080)) {
        Some(w) => Some(w),
        None => window_or_none(&response.seven_day_sonnet, Some(10080)),
    };
    let mut extra = scoped;
    let ghost before = extra@;
    if show_routines {
        if let Some(window) = window_or_none(&response.seven_day_routines, Some(10080)) {
            extra.push(
                NamedRateWindow {
                    id: tool.say_routines_id(),
                    title: "Daily Routines".to_owned(),
                    window,
                },
            );
            assert(named_views(extra@) =~= named_views(before).push(extra@.last()@));
        }
    }
    assert(named_views(before) + Seq::<NamedWindowView>::empty() =~= named_views(before));
    let login_method = match plan {
        Some(p) => Some(p),
        None => Some(tool.say_oauth_login()),
    };
    UsageSnapshot {
        primary,
        secondary,
        model_specific,
        extra_rate_windows: extra,
        login_method,
    }
}

/// What is done to have fresh credentials.
#[derive(Debug)]
pub enum FreshStep {
    /// Use these; `message` says why they could not be refreshed.
    Use { credentials: ClaudeOAuthCredentials, message: Option<String> },
    /// Read the stores once more; another program may have refreshed them.
    Reread(ClaudeOAuthCredentials),
    /// Refresh these with the token.
    Refresh { credentials: ClaudeOAuthCredentials, refresh_token: String },
}

/// The credentials at hand: refreshed ones that are kept for the same source, where they last
/// longer than those that were read.
pub open spec fn at_hand(
    cache: Map<SourceView, ClaudeOAuthCredentials>,
    source: SourceView,
    read: OAuthView,
) -> OAuthView {
    if cache.contains_key(source) && lasts_longer(cache[source].expires_at, read.expires_at) {
        cache[source]@
    } else {
        read
    }
}

/// The first step: credentials that have not expired are used as they are.
pub fn fresh_start(
    cache: &SourceTable<ClaudeOAuthCredentials>,
    source: &CredentialSource,
    credentials: ClaudeOAuthCredentials,
    now: Moment,
) -> (r: FreshStep)
    ensures
        ({
            let c = at_hand(cache@, source@, credentials@);
            if c.expired(now) {
                r matches FreshStep::Reread(own) && own@ == c
            } else {
                r matches FreshStep::Use { credentials: own, message } && own@ == c
                    && message is None
            }
        }),
{
    let chosen = match cached_refreshed_if_fresher(cache, source, &credentials) {
        Some(c) => c,
        None => credentials,
    };
    if chosen.is_expired_at(now) {
        FreshStep::Reread(chosen)
    } else {
        FreshStep::Use { credentials: chosen, message: None }
    }
}

/// The second step, after the stores were read again. Credentials that were refreshed there
/// are taken and kept. Else a refresh is tried, unless there is no token for it or an earlier
/// failure holds it back.
pub fn fresh_reread(
    tool: &Tool,
    cache: &mut SourceTable<ClaudeOAuthCredentials>,
    backoff: &mut SourceTable<RefreshBackoffEntry>,
    source: &CredentialSource,
    credentials: ClaudeOAuthCredentials,
    disk: Option<(ClaudeOAuthCredentials, CredentialSource)>,
    now: Moment,
    instant: u128,
) -> (r: FreshStep)
    ensures
        match disk {
            Some((d, ds)) if !d@.expired(now) => {
                &&& r matches FreshStep::Use { credentials: own, message }
                &&& own@ == d@
                &&& message is None
                &&& final(backoff)@ == old(backoff)@
                &&& final(cache)@.contains_key(ds@)
                &&& final(cache)@[ds@]@ == d@
                &&& final(cache)@.dom() == old(cache)@.dom().insert(ds@)
                &&& forall|k: SourceView|
                    k != ds@ && old(cache)@.contains_key(k) ==> #[trigger] final(cache)@[k] == old(
                        cache,
                    )@[k]
            },
            _ => {
                let c = match disk {
                    Some((d, _)) => d@,
                    None => credentials@,
                };
                let held = old(backoff)@.contains_key(source@) && holds_back(
                    old(backoff)@[source@],
                    instant,
                    c.refresh_token,
                );
                &&& final(cache)@ == old(cache)@
                &&& c.refresh_token is None ==> {
                    &&& r matches FreshStep::Use { credentials: own, message }
                    &&& own@ == c
                    &&& message is None
                    &&& final(backoff)@ == old(backoff)@
                }
                &&& c.refresh_token is Some && held ==> {
                    &&& r matches FreshStep::Use { credentials: own, message }
                    &&& own@ == c
                    &&& seen(message) == Some(failure_text(*tool, old(backoff)@[source@].kind))
                    &&& final(backoff)@ == old(backoff)@
                }
                &&& c.refresh_token is Some && !held ==> {
                    &&& r matches FreshStep::Refresh { credentials: own, refresh_token }
                    &&& own@ == c
                    &&& Some(refresh_token@) == c.refresh_token
                    &&& final(backoff)@ == old(backoff)@.remove(source@)
                }
            },
        },
{
    let mut credentials = credentials;
    if let Some((d, ds)) = disk {
        if !d.is_expired_at(now) {
            store_refreshed(cache, &ds, &d);
            return FreshStep::Use { credentials: d, message: None };
        }
        credentials = d;
    }
    let refresh_token = match &credentials.refresh_token {
        Some(t) => t.clone(),
        None => {
            return FreshStep::Use { credentials, message: None };
        },
    };
    match active_refresh_backoff(backoff, source, instant, Some(refresh_token.as_str())) {
        Some(kind) => FreshStep::Use { credentials, message: Some(failure_message(tool, kind)) },
        None => FreshStep::Refresh { credentials, refresh_token },
    }
}

/// The outcome of having tried to have fresh credentials.
#[derive(Debug)]
pub struct FreshOutcome {
    pub credentials: ClaudeOAuthCredentials,
    /// What the user is told where the credentials could not be refreshed.
    pub message: Option<String>,
    /// The credentials are new and are to be written back.
    pub persist: bool,
}

/// The last step, after a refresh. New credentials are kept and clear what held refreshes
/// back; a failure is kept, with the old credentials.
pub fn fresh_finish(
    tool: &Tool,
    cache: &mut SourceTable<ClaudeOAuthCredentials>,
    backoff: &mut SourceTable<RefreshBackoffEntry>,
    source: &CredentialSource,
    credentials: ClaudeOAuthCredentials,
    refresh_token: &str,
    refreshed: Result<ClaudeOAuthCredentials, RefreshFailureKind>,
    instant: u128,
) -> (r: FreshOutcome)
    requires
        instant + TRANSIENT_REFRESH_BACKOFF <= u128::MAX,
    ensures
        match refreshed {
            Ok(c) => {
                &&& r.credentials@ == c@
                &&& r.message is None
                &&& r.persist
                &&& final(backoff)@ == old(backoff)@.remove(source@)
                &&& final(cache)@.dom() == old(cache)@.dom().insert(source@)
                &&& final(cache)@[source@]@ == c@
                &&& forall|k: SourceView|
                    k != source@ && old(cache)@.contains_key(k) ==> #[trigger] final(cache)@[k]
                        == old(cache)@[k]
            },
            Err(kind) => {
                &&& r.credentials == credentials
                &&& seen(r.message) == Some(failure_text(*tool, kind))
                &&& !r.persist
                &&& final(cache)@ == old(cache)@
                &&& exists|e: RefreshBackoffEntry|
                    #[trigger] backoff_of(kind, instant, Some(refresh_token@), e) && final(backoff)@
                        == old(backoff)@.insert(source@, e)
            },
        },
{
    match refreshed {
        Ok(c) => {
            clear_refresh_backoff(backoff, source);
            store_refreshed(cache, source, &c);
            FreshOutcome { credentials: c, message: None, persist: true }
        },
        Err(kind) => {
            record_refresh_backoff(backoff, source, kind, instant, Some(refresh_token));
            FreshOutcome { credentials, message: Some(failure_message(tool, kind)), persist: false }
        },
    }
}

/// What is told instead of fetching usage with credentials that are still expired.
pub fn stale_credentials_error(
    credentials: &ClaudeOAuthCredentials,
    message: Option<String>,
    now: Moment,
) -> (r: Option<ProviderError>)
    ensures
        r is Some <==> credentials@.expired(now) && message is Some,
        r matches Some(e) ==> e@ == ProviderErrorView::OAuth(message->Some_0@),
{
    match message {
        Some(m) => if credentials.is_expired_at(now) {
            Some(ProviderError::OAuth(m))
        } else {
            None
        },
        None => None,
    }
}

/// Both waits are five minutes.
pub proof fn waits_are_five_minutes()
    ensures
        TRANSIENT_REFRESH_BACKOFF == 5 * 60 * 1_000_000_000,
        DEFAULT_RATE_LIMIT_BACKOFF == 5 * 60 * 1_000_000_000,
{
}

/// What is left of a wait shrinks with the time, and nothing is left from its end on.
pub proof fn what_is_left_of_a_wait_shrinks(gate: RateLimitGate, until: u128, now: u128)
    ensures
        gate.until == Some(until) && now < until ==> gate.left(now) == Some((until - now) as u128),
        gate.until == Some(until) && now >= until ==> gate.left(now) is None,
        gate.until is None ==> gate.left(now) is None,
{
}

/// A server that gives a number of seconds is waited for that long; one that gives a date to come,
/// until then; one that gives neither, for five minutes.
pub proof fn a_server_is_waited_for_as_it_asks(n: u64, text: Seq<char>, date: Moment, now: Moment)
    ensures
        retry_after(Some(digits(n as nat)), now) == n * 1_000_000_000,
        retry_after(None, now) == 300 * 1_000_000_000,
        unsigned_value(trimmed(text)) is None && rfc2822_moment(trimmed(text)) is None
            ==> retry_after(Some(text), now) == 300 * 1_000_000_000,
        unsigned_value(trimmed(text)) is None && rfc2822_moment(trimmed(text)) == Some(date)
            && now.nanos < 1_000_000_000 && date.nanos < 1_000_000_000 && date.secs > now.secs
            ==> retry_after(Some(text), now) == (date.secs - now.secs) * 1_000_000_000 + date.nanos
            - now.nanos,
        unsigned_value(trimmed(text)) is None && rfc2822_moment(trimmed(text)) == Some(date)
            && date.secs < now.secs ==> retry_after(Some(text), now) == 300 * 1_000_000_000,
{
    digits_are_read_back(n as nat);
    digits_have_no_white_ends(n as nat);
}

/// What is told of a wait are its whole seconds, and one where less is left.
pub proof fn a_wait_is_told_in_seconds(tool: Tool, seconds: nat, rest: nat)
    requires
        rest < 1_000_000_000,
    ensures
        seconds >= 1 ==> rate_limited_text(tool, (seconds * 1_000_000_000 + rest) as int)
            == tool.rate_limited(digits(seconds)),
        rate_limited_text(tool, rest as int) == tool.rate_limited(digits(1)),
{
}

/// A request is not sent with an expired token, and not with one that names its scopes and lacks
/// the one for the profile. Any other token will do, one without scopes as well.
pub proof fn a_request_needs_a_good_token(tool: Tool, c: OAuthView, now: Moment)
    ensures
        c.expired(now) ==> unusable(tool, c, now) is Some && unusable(
            tool,
            c,
            now,
        )->Some_0 is OAuthExpired,
        !c.expired(now) && c.scopes.len() == 0 ==> unusable(tool, c, now) is None,
        !c.expired(now) && c.scopes.contains("user:profile"@) ==> unusable(tool, c, now) is None,
        !c.expired(now) && c.scopes.len() > 0 && !c.scopes.contains("user:profile"@) ==> unusable(
            tool,
            c,
            now,
        ) is Some && unusable(tool, c, now)->Some_0 is OAuth,
{
}

/// A reply speaks of a revoked token where it holds one of the words for it, in capitals or not.
pub proof fn a_revoked_token_is_told_by_its_words(body: Seq<char>)
    ensures
        has_part(ascii_lower(body), "revoked"@) ==> says_revoked(body),
        has_part(ascii_lower(body), "invalid_grant"@) ==> says_revoked(body),
        !has_part(ascii_lower(body), "revoked"@) && !has_part(ascii_lower(body), "invalid_grant"@)
            ==> !says_revoked(body),
{
    if !has_part(ascii_lower(body), "revoked"@) && has_part(ascii_lower(body), "token_revoked"@) {
        let s = ascii_lower(body);
        let i = choose|i: int| has_at(s, "token_revoked"@, i);
        reveal_strlit("revoked");
        reveal_strlit("token_revoked");
        assert("token_revoked"@.subrange(6, 13) =~= "revoked"@);
        assert(s.subrange(i + 6, i + 13) =~= s.subrange(i, i + 13).subrange(6, 13));
        assert(has_at(s, "revoked"@, i + 6));
    }
}

/// What a refused usage request means goes by its status: a revoked token, an expired one, a scope
/// that is lacking, too many requests, or else what the server said.
pub proof fn a_refusal_goes_by_its_status(
    tool: Tool,
    status: u16,
    status_text: Seq<char>,
    body: Seq<char>,
    wait: int,
)
    ensures
        ({
            let r = refusal(tool, status, status_text, body, wait);
            &&& r is OAuthRevoked <==> (status == 401 || status == 403) && says_revoked(body)
            &&& r is OAuthExpired <==> status == 401 && !says_revoked(body)
            &&& status == 429 ==> r == ProviderErrorView::OAuth(rate_limited_text(tool, wait))
            &&& status == 403 && !says_revoked(body) && has_part(body, "user:profile"@) ==> r
                == ProviderErrorView::OAuth(tool.scope_refused())
            &&& status != 401 && status != 403 && status != 429 && body.len() <= 200 ==> r
                == ProviderErrorView::OAuth("API error "@ + status_text + ": "@ + body)
            &&& status != 401 && status != 403 && status != 429 && body.len() > 200 ==> r
                == ProviderErrorView::OAuth(
                "API error "@ + status_text + ": "@ + body.subrange(0, 200),
            )
        }),
{
    if body.len() > 200 {
        assert(body.take(200) =~= body.subrange(0, 200));
    }
}

/// A failed refresh is told by its kind.
pub proof fn a_failed_refresh_is_told_by_its_kind(tool: Tool)
    ensures
        failure_text(tool, RefreshFailureKind::Terminal) == tool.refresh_rejected(),
        failure_text(tool, RefreshFailureKind::Transient) == tool.refresh_cooling(),
{
}

/// A window is shown with the share and the reset that the reply gives; without a share it is not
/// shown, and without a reset nothing is said of one.
pub proof fn a_window_is_shown_as_the_reply_gives_it(w: UsageWindow, minutes: Option<u32>)
    ensures
        rate_window(w, minutes) is Some <==> w.utilization is Some,
        rate_window(w, minutes) matches Some(shown) ==> {
            &&& shown.used_percent == w.utilization->Some_0
            &&& shown.window_minutes == minutes
            &&& w.resets_at is None ==> shown.resets_at is None && shown.reset_description is None
            &&& w.resets_at matches Some(s) ==> shown.resets_at == iso_moment(s@)
            &&& shown.resets_at matches Some(t) ==> shown.reset_description == Some(
                formatted(t, RESET_FORMAT@),
            )
            &&& shown.resets_at is None ==> shown.reset_description is None
        },
        optional_window(None, minutes) is None,
        optional_window(Some(w), minutes) == rate_window(w, minutes),
{
}

/// A time is read with its offset where it has one, else as one in UTC.
pub proof fn a_time_is_read_with_its_offset_first(s: Seq<char>, t: Moment)
    ensures
        rfc3339_moment(s) == Some(t) ==> iso_moment(s) == Some(t),
        rfc3339_moment(s) is None ==> iso_moment(s) == naive_moment(s, NAIVE_FORMAT@),
{
}

/// The window of five hours is shown first and that of seven days second, each taken from the list
/// of limits where it is there; the model with its own window is the larger one where both have one.
/// Windows for single models follow, and those for routines only where they are asked for.
pub proof fn usage_is_shown_window_by_window(
    tool: &Tool,
    response: &OAuthUsageResponse,
    session: Option<RateWindow>,
    weekly_all: Option<RateWindow>,
    scoped: Vec<NamedRateWindow>,
    plan: Option<String>,
    show_routines: bool,
    r: UsageSnapshot,
)
    requires
        call_ensures(
            build_usage_snapshot_with_options,
            (tool, response, session, weekly_all, scoped, plan, show_routines),
            r,
        ),
    ensures
        session matches Some(w) ==> r.primary@ == w@,
        session is None && response.five_hour is Some && response.five_hour->Some_0.utilization is Some
            ==> r.primary@.used_percent == response.five_hour->Some_0.utilization->Some_0
            && r.primary@.window_minutes == Some(300u32),
        session is None && response.five_hour is None ==> r.primary@.used_percent.scaled == 0
            && r.primary@.resets_at is None,
        weekly_all matches Some(w) ==> r.secondary is Some && r.secondary->Some_0@ == w@,
        weekly_all is None && response.seven_day is Some
            && response.seven_day->Some_0.utilization is Some ==> r.secondary is Some
            && r.secondary->Some_0@.used_percent == response.seven_day->Some_0.utilization->Some_0
            && r.secondary->Some_0@.window_minutes == Some(10_080u32),
        weekly_all is None && response.seven_day is None ==> r.secondary is None,
        response.seven_day_opus is Some && response.seven_day_opus->Some_0.utilization is Some
            ==> r.model_specific is Some && r.model_specific->Some_0@.used_percent
            == response.seven_day_opus->Some_0.utilization->Some_0,
        response.seven_day_opus is None && response.seven_day_sonnet is Some
            && response.seven_day_sonnet->Some_0.utilization is Some ==> r.model_specific is Some
            && r.model_specific->Some_0@.used_percent
            == response.seven_day_sonnet->Some_0.utilization->Some_0,
        response.seven_day_opus is None && response.seven_day_sonnet is None
            ==> r.model_specific is None,
        !show_routines || response.seven_day_routines is None ==> named_views(r.extra_rate_windows@)
            == named_views(scoped@),
        show_routines && response.seven_day_routines is Some
            && response.seven_day_routines->Some_0.utilization is Some ==> {
            &&& r.extra_rate_windows@.len() == scoped@.len() + 1
            &&& r.extra_rate_windows@.last()@.window.used_percent
                == response.seven_day_routines->Some_0.utilization->Some_0
        },
        plan matches Some(p) ==> seen(r.login_method) == Some(p@),
{
    let shown = named_views(r.extra_rate_windows@);
    if show_routines && response.seven_day_routines is Some
        && response.seven_day_routines->Some_0.utilization is Some {
        assert(shown.last() == r.extra_rate_windows@.last()@);
    }
    if !show_routines || response.seven_day_routines is None {
        assert(shown =~= named_views(scoped@));
    }
    assert(weekly_all matches Some(w) ==> window_seen(r.secondary) == Some(w@));
}

/// The credentials at hand are the kept ones or those that were read, and of the two, where both
/// ends are known, never the ones that end first.
pub proof fn the_credentials_at_hand_end_last(
    cache: Map<SourceView, ClaudeOAuthCredentials>,
    source: SourceView,
    read: OAuthView,
)
    ensures
        ({
            let c = at_hand(cache, source, read);
            &&& !cache.contains_key(source) ==> c == read
            &&& cache.contains_key(source) ==> c == read || c == cache[source]@
            &&& cache.contains_key(source) && cache[source].expires_at is Some
                && read.expires_at is Some ==> {
                &&& c.expires_at is Some
                &&& c.expires_at->Some_0.secs >= cache[source].expires_at->Some_0.secs
                &&& c.expires_at->Some_0.secs >= read.expires_at->Some_0.secs
            }
            &&& cache.contains_key(source) && cache[source].expires_at is Some
                && read.expires_at is None ==> c == cache[source]@
            &&& cache.contains_key(source) && cache[source].expires_at is None ==> c == read
        }),
{
}

/// Credentials that have not expired are used at once, and expired ones only after the stores were
/// read again.
pub proof fn fresh_credentials_are_used_at_once(
    cache: &SourceTable<ClaudeOAuthCredentials>,
    source: &CredentialSource,
    credentials: ClaudeOAuthCredentials,
    now: Moment,
    r: FreshStep,
)
    requires
        call_ensures(fresh_start, (cache, source, credentials, now), r),
    ensures
        r is Use ==> r->Use_message is None && !r->Use_credentials@.expired(now),
        r !is Use ==> r is Reread && r->Reread_0@.expired(now),
        !cache@.contains_key(source@) && !credentials@.expired(now) ==> r is Use
            && r->Use_credentials@ == credentials@,
        !cache@.contains_key(source@) && credentials@.expired(now) ==> r is Reread && r->Reread_0@
            == credentials@,
{
}

/// A usage request is given up, with what the refresh came to, exactly where the credentials are
/// still expired and a refresh was tried.
pub proof fn expired_credentials_are_told(
    credentials: &ClaudeOAuthCredentials,
    message: Option<String>,
    now: Moment,
    r: Option<ProviderError>,
)
    requires
        call_ensures(stale_credentials_error, (credentials, message, now), r),
    ensures
        !credentials@.expired(now) ==> r is None,
        message is None ==> r is None,
        credentials@.expired(now) && message is Some ==> r is Some && r->Some_0@
            == ProviderErrorView::OAuth(message->Some_0@),
{
}

/// A usage request that may be sent has a good token and is not held back; one that may not is
/// refused, and what holds requests back stays as it is.
pub proof fn a_request_is_sent_where_nothing_stands_in_its_way(
    tool: &Tool,
    c: &ClaudeOAuthCredentials,
    now: Moment,
    instant: u128,
    r: Result<(), ProviderError>,
)
    ensures
        forall|gate: &mut RateLimitGate| #[trigger]
            call_ensures(before_usage_request, (tool, c, now, gate, instant), r) ==> {
                &&& r is Ok ==> !c@.expired(now) && (gate.until matches Some(t) ==> t <= instant)
                    && final(gate).until is None
                &&& c@.expired(now) ==> r is Err && r->Err_0@ is OAuthExpired
                &&& !c@.expired(now) && c@.scopes.len() == 0 && gate.until is None ==> r is Ok
                &&& gate.until matches Some(t) ==> t > instant ==> r is Err && *final(gate)
                    == *gate
                &&& r is Err ==> *final(gate) == *gate
            },
{
}

/// A refusal for too many requests holds further ones back for as long as the server asks; any other
/// refusal does not touch that.
pub proof fn too_many_requests_hold_back_further_ones(
    tool: &Tool,
    status: u16,
    status_text: &str,
    body: &str,
    header: Option<&str>,
    now: Moment,
    instant: u128,
    r: ProviderError,
)
    ensures
        forall|gate: &mut RateLimitGate| #[trigger]
            call_ensures(
                usage_refused,
                (tool, status, status_text, body, header, now, gate, instant),
                r,
            ) ==> {
                &&& status == 429 ==> final(gate).until == Some(
                    (instant + retry_after(glimpsed(header), now)) as u128,
                )
                &&& status != 429 ==> final(gate).until == gate.until
                &&& status == 401 ==> r@ is OAuthExpired || r@ is OAuthRevoked
                &&& status == 500 ==> r@ is OAuth
            },
{
}

/// A failure that still holds refreshes back is told and kept; one that no longer does is forgotten,
/// and what is kept of other sources stays.
pub proof fn what_holds_refreshes_back_is_kept_while_it_does(
    source: &CredentialSource,
    now: u128,
    token: Option<&str>,
    r: Option<RefreshFailureKind>,
)
    ensures
        forall|table: &mut SourceTable<RefreshBackoffEntry>| #[trigger]
            call_ensures(active_refresh_backoff, (table, source, now, token), r) ==> {
                let held = table@.contains_key(source@) && holds_back(
                    table@[source@],
                    now,
                    glimpsed(token),
                );
                &&& r is Some <==> held
                &&& held ==> r == Some(table@[source@].kind) && final(table)@ == table@
                &&& !held ==> !final(table)@.contains_key(source@)
                &&& forall|other: SourceView|
                    other != source@ ==> #[trigger] final(table)@.contains_key(other)
                        == table@.contains_key(other)
            },
{
}

/// A failure that was noted holds back the refresh that failed, from then on: a rejected token for
/// good, any other failure for five minutes.
pub proof fn a_noted_failure_holds_the_refresh_back(
    source: &CredentialSource,
    kind: RefreshFailureKind,
    now: u128,
    token: &str,
)
    requires
        now + TRANSIENT_REFRESH_BACKOFF <= u128::MAX,
    ensures
        forall|table: &mut SourceTable<RefreshBackoffEntry>| #[trigger]
            call_ensures(record_refresh_backoff, (table, source, kind, now, Some(token)), ()) ==> {
                &&& final(table)@.contains_key(source@)
                &&& final(table)@[source@].kind == kind
                &&& holds_back(final(table)@[source@], now, Some(token@))
                &&& kind == RefreshFailureKind::Transient ==> !holds_back(
                    final(table)@[source@],
                    (now + 300_000_000_000) as u128,
                    Some(token@),
                )
                &&& kind == RefreshFailureKind::Terminal ==> holds_back(
                    final(table)@[source@],
                    u128::MAX,
                    Some(token@),
                )
            },
{
}

/// Credentials that another program refreshed are taken and kept under their source. Else a refresh
/// is tried with the token at hand, unless there is none or an earlier failure holds it back, which
/// is then told.
pub proof fn a_refresh_is_tried_where_it_can_help(
    tool: &Tool,
    source: &CredentialSource,
    credentials: ClaudeOAuthCredentials,
    disk: Option<(ClaudeOAuthCredentials, CredentialSource)>,
    now: Moment,
    instant: u128,
    r: FreshStep,
)
    ensures
        forall|
            cache: &mut SourceTable<ClaudeOAuthCredentials>,
            backoff: &mut SourceTable<RefreshBackoffEntry>,
        | #[trigger]
            call_ensures(
                fresh_reread,
                (tool, cache, backoff, source, credentials, disk, now, instant),
                r,
            ) ==> {
                let renewed = disk is Some && !disk->Some_0.0@.expired(now);
                let own = if disk is Some {
                    disk->Some_0.0@
                } else {
                    credentials@
                };
                &&& r !is Reread
                &&& renewed ==> r is Use && r->Use_credentials@ == disk->Some_0.0@
                    && r->Use_message is None && final(cache)@.contains_key(disk->Some_0.1@)
                    && final(cache)@[disk->Some_0.1@]@ == disk->Some_0.0@
                &&& !renewed && own.refresh_token is None ==> r is Use && r->Use_credentials@ == own
                    && r->Use_message is None
                &&& !renewed && own.refresh_token is Some && !backoff@.contains_key(source@) ==> r is Refresh
                    && r->Refresh_credentials@ == own && Some(r->refresh_token@)
                    == own.refresh_token
                &&& r is Refresh ==> !final(backoff)@.contains_key(source@)
                &&& !renewed ==> final(cache)@ == cache@
                &&& !renewed && own.refresh_token is Some && backoff@.contains_key(source@)
                    && holds_back(backoff@[source@], instant, own.refresh_token) ==> r is Use
                    && r->Use_credentials@ == own && r->Use_message is Some
            },
{
}

/// Refreshed credentials are used, kept for their source and written back, and nothing holds
/// refreshes back any more; a failure leaves the credentials as they were, is told and noted.
pub proof fn refreshed_credentials_are_used_and_kept(
    tool: &Tool,
    source: &CredentialSource,
    credentials: ClaudeOAuthCredentials,
    token: &str,
    refreshed: Result<ClaudeOAuthCredentials, RefreshFailureKind>,
    instant: u128,
    r: FreshOutcome,
)
    ensures
        forall|
            cache: &mut SourceTable<ClaudeOAuthCredentials>,
            backoff: &mut SourceTable<RefreshBackoffEntry>,
        | #[trigger]
            call_ensures(
                fresh_finish,
                (tool, cache, backoff, source, credentials, token, refreshed, instant),
                r,
            ) ==> {
                &&& r.persist <==> refreshed is Ok
                &&& refreshed matches Ok(c) ==> r.credentials@ == c@ && r.message is None
                    && final(cache)@.contains_key(source@) && final(cache)@[source@]@ == c@
                    && !final(backoff)@.contains_key(source@)
                &&& refreshed matches Err(kind) ==> r.credentials == credentials
                    && r.message is Some && r.message->Some_0@ == failure_text(*tool, kind)
                    && final(cache)@ == cache@ && final(backoff)@.contains_key(source@)
                    && final(backoff)@[source@].kind == kind
            },
{
}

/// A bare access token is taken without white space around it, for the profile alone; a blank one is
/// refused.
pub proof fn a_bare_token_reads_the_profile(
    tool: &Tool,
    token: &str,
    r: Result<ClaudeOAuthCredentials, ProviderError>,
)
    requires
        call_ensures(access_token_credentials, (tool, token), r),
    ensures
        trimmed(token@).len() == 0 ==> r is Err,
        trimmed(token@).len() > 0 ==> r is Ok && r->Ok_0@.access_token == trimmed(token@)
            && r->Ok_0@.scopes =~= seq!["user:profile"@] && r->Ok_0@.expires_at is None
            && r->Ok_0@.refresh_token is None,
{
}

/// When the account of a file changes, everything kept of credentials goes, and what holds back the
/// refresh of that file.
pub proof fn a_changed_account_forgets_what_was_kept(path: &str, other: SourceView)
    ensures
        forall|
            cache: &mut SourceTable<ClaudeOAuthCredentials>,
            backoff: &mut SourceTable<RefreshBackoffEntry>,
        | #[trigger]
            call_ensures(clear_account_cache, (cache, backoff, path), ()) ==> {
                &&& !final(cache)@.contains_key(other)
                &&& !final(backoff)@.contains_key(SourceView::File(path@))
                &&& other != SourceView::File(path@) ==> final(backoff)@.contains_key(other)
                    == backoff@.contains_key(other)
            },
{
}

} // verus!
