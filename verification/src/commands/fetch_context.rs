//! From where the usage of a provider is fetched, and with what.

use vstd::prelude::*;
use crate::snapshot::{Provider, ProviderId};
use crate::text::{copy_text, either, keep_nonempty, nonempty, same, seen, trim, trimmed};

verus! {

/// Where usage is fetched from.
#[derive(Clone, Copy, Debug, PartialEq, Eq, Structural)]
pub enum SourceMode {
    Auto,
    OAuth,
    Web,
    Cli,
}

/// What the token account selected for a provider brings along: a cookie, and values for the
/// environment.
#[derive(Debug)]
pub struct TokenOverride {
    pub cookie_header: Option<String>,
    pub env_values: Option<Vec<String>>,
}

/// What is stored for a provider.
#[derive(Debug)]
pub struct FetchSettings {
    pub cookie_source: String,
    /// What the user chose, where it can be read.
    pub usage_source: Option<SourceMode>,
    pub stored_cookie: Option<String>,
    pub stored_api_key: Option<String>,
    pub token: Option<TokenOverride>,
    pub workspace_id: String,
    pub api_region: String,
    pub gateway_url: String,
    /// The domain of the chosen region, for the providers that have regions.
    pub region_domain: String,
    pub web_timeout: u64,
}

/// With what the usage of a provider is fetched.
#[derive(Debug)]
pub struct FetchContext {
    pub source_mode: SourceMode,
    pub manual_cookie_header: Option<String>,
    pub api_key: Option<String>,
    pub workspace_id: Option<String>,
    pub api_region: Option<String>,
    pub gateway_url: Option<String>,
    pub auto_prefer_web: bool,
    pub web_timeout: u64,
}

#[verifier::ext_equal]
pub struct ContextView {
    pub source_mode: SourceMode,
    pub manual_cookie_header: Option<Seq<char>>,
    pub api_key: Option<Seq<char>>,
    pub workspace_id: Option<Seq<char>>,
    pub api_region: Option<Seq<char>>,
    pub gateway_url: Option<Seq<char>>,
    pub auto_prefer_web: bool,
    pub web_timeout: u64,
}

impl View for FetchContext {
    type V = ContextView;

    open spec fn view(&self) -> ContextView {
        ContextView {
            source_mode: self.source_mode,
            manual_cookie_header: seen(self.manual_cookie_header),
            api_key: seen(self.api_key),
            workspace_id: seen(self.workspace_id),
            api_region: seen(self.api_region),
            gateway_url: seen(self.gateway_url),
            auto_prefer_web: self.auto_prefer_web,
            web_timeout: self.web_timeout,
        }
    }
}

/// Whether a provider is reached by OAuth where it gets no cookies.
pub open spec fn oauth_without_cookies(id: ProviderId, usage_source: SourceMode) -> bool {
    match id {
        ProviderId::Claude => usage_source != SourceMode::Cli,
        ProviderId::Grok => usage_source == SourceMode::Auto || usage_source == SourceMode::OAuth,
        _ => false,
    }
}

/// Whether a provider is reached by OAuth where it gets no cookies.
pub fn provider_uses_oauth_without_cookies(id: ProviderId, usage_source: SourceMode) -> (r: bool)
    ensures
        r == oauth_without_cookies(id, usage_source),
{
    match id {
        ProviderId::Claude => usage_source != SourceMode::Cli,
        ProviderId::Grok => usage_source == SourceMode::Auto || usage_source == SourceMode::OAuth,
        _ => false,
    }
}

/// The domain whose cookies a provider takes: that of the region, or its own.
pub open spec fn cookie_domain(provider: Provider, region_domain: Seq<char>) -> Option<Seq<char>> {
    if provider.id == ProviderId::MiniMax || provider.id == ProviderId::Alibaba {
        Some(region_domain)
    } else {
        seen(provider.cookie_domain)
    }
}

/// The domain whose cookies a provider takes.
pub fn provider_cookie_domain(provider: &Provider, region_domain: &str) -> (r: Option<String>)
    ensures
        seen(r) == cookie_domain(*provider, region_domain@),
{
    if provider.id == ProviderId::MiniMax || provider.id == ProviderId::Alibaba {
        Some(region_domain.to_owned())
    } else {
        copy_text(&provider.cookie_domain)
    }
}

impl FetchSettings {
    /// Where the user wants usage fetched from.
    pub open spec fn usage(self) -> SourceMode {
        match self.usage_source {
            Some(m) => m,
            None => SourceMode::Auto,
        }
    }

    /// Whether the token account sets the environment.
    pub open spec fn has_env(self) -> bool {
        self.token is Some && self.token->0.env_values is Some
    }

    /// The key of the token account.
    pub open spec fn token_key(self) -> Option<Seq<char>> {
        if self.has_env() && self.token->0.env_values->0@.len() > 0 {
            Some(self.token->0.env_values->0@[0]@)
        } else {
            None
        }
    }

    /// The key that is used: that of the token account, else the stored one.
    pub open spec fn key(self) -> Option<Seq<char>> {
        either(self.token_key(), seen(self.stored_api_key))
    }

    /// The cookie that is at hand: that of the token account, else the stored one.
    pub open spec fn cookie_at_hand(self) -> Option<Seq<char>> {
        match self.token {
            Some(t) => either(seen(t.cookie_header), seen(self.stored_cookie)),
            None => seen(self.stored_cookie),
        }
    }

    /// Whether cookies may come from the browser.
    pub open spec fn takes_browser_cookies(self) -> bool {
        self.cookie_source@ == "auto"@ || self.cookie_source@ == "browser"@ || self.cookie_source@
            == "web"@
    }
}

/// Whether a value is there and more than white space.
pub open spec fn filled(value: Option<Seq<char>>) -> bool {
    value is Some && trimmed(value->0).len() > 0
}

/// Whether a provider has a key with which it needs no cookies.
pub open spec fn keyed(id: ProviderId, f: FetchSettings) -> bool {
    (id == ProviderId::Kimi || id == ProviderId::OpenCodeGo) && filled(f.key())
}

/// The source and the cookie, before a provider without a command line is looked after.
/// `browser` is the cookie that the browser has for the provider.
pub open spec fn first_choice(
    provider: Provider,
    f: FetchSettings,
    browser: Option<Seq<char>>,
) -> (SourceMode, Option<Seq<char>>) {
    if provider.cookie_domain is None {
        (
            if f.has_env() {
                SourceMode::OAuth
            } else {
                f.usage()
            },
            None,
        )
    } else if f.has_env() {
        (SourceMode::OAuth, None)
    } else if f.cookie_source@ == "off"@ {
        if oauth_without_cookies(provider.id, f.usage()) {
            (SourceMode::OAuth, None)
        } else if keyed(provider.id, f) && f.usage() == SourceMode::Auto {
            (SourceMode::Auto, None)
        } else {
            (SourceMode::Cli, None)
        }
    } else if f.cookie_source@ == "manual"@ {
        let cookie = f.cookie_at_hand();
        let mode = if keyed(provider.id, f) && f.usage() == SourceMode::Auto {
            SourceMode::Auto
        } else if cookie is Some {
            SourceMode::Web
        } else if oauth_without_cookies(provider.id, f.usage()) {
            SourceMode::OAuth
        } else {
            SourceMode::Cli
        };
        (mode, cookie)
    } else if f.takes_browser_cookies() {
        (f.usage(), either(f.cookie_at_hand(), nonempty(browser)))
    } else {
        (f.usage(), seen(f.stored_cookie))
    }
}

/// Whether the browser is asked for a cookie at first.
pub open spec fn asks_browser(provider: Provider, f: FetchSettings) -> bool {
    &&& provider.cookie_domain is Some
    &&& !f.has_env()
    &&& f.takes_browser_cookies()
    &&& f.cookie_at_hand() is None
}

/// Whether a source has to be replaced because the provider has no command line.
pub open spec fn lacks_cli(provider: Provider, f: FetchSettings, mode: SourceMode) -> bool {
    mode == SourceMode::Cli && f.cookie_source@ != "off"@ && !provider.supports_cli
}

/// Whether the browser is asked for a cookie again, to replace the command line.
pub open spec fn asks_browser_again(
    provider: Provider,
    f: FetchSettings,
    first: Option<Seq<char>>,
) -> bool {
    let (mode, cookie) = first_choice(provider, f, first);
    lacks_cli(provider, f, mode) && !filled(cookie) && cookie_domain(
        provider,
        f.region_domain@,
    ) is Some
}

/// The source and the cookie. `first` and `second` are the cookies that the browser gave when
/// it was asked and asked again.
pub open spec fn source_and_cookie(
    provider: Provider,
    f: FetchSettings,
    first: Option<Seq<char>>,
    second: Option<Seq<char>>,
) -> (SourceMode, Option<Seq<char>>) {
    let (mode, cookie) = first_choice(provider, f, first);
    if lacks_cli(provider, f, mode) {
        (
            SourceMode::Web,
            if filled(cookie) {
                cookie
            } else if cookie_domain(provider, f.region_domain@) is Some {
                nonempty(second)
            } else {
                None
            },
        )
    } else {
        (mode, cookie)
    }
}

/// With what the usage of a provider is fetched.
pub open spec fn context_of(
    provider: Provider,
    f: FetchSettings,
    first: Option<Seq<char>>,
    second: Option<Seq<char>>,
) -> ContextView {
    let (source_mode, cookie) = source_and_cookie(provider, f, first, second);
    ContextView {
        source_mode,
        manual_cookie_header: cookie,
        api_key: f.key(),
        workspace_id: nonempty(Some(trimmed(f.workspace_id@))),
        api_region: nonempty(Some(trimmed(f.api_region@))),
        gateway_url: if provider.id == ProviderId::Wayfinder {
            nonempty(Some(f.gateway_url@))
        } else {
            None
        },
        auto_prefer_web: f.token is Some || f.cookie_source@ == "manual"@,
        web_timeout: f.web_timeout,
    }
}

fn has_env(f: &FetchSettings) -> (r: bool)
    ensures
        r == f.has_env(),
{
    match &f.token {
        Some(t) => t.env_values.is_some(),
        None => false,
    }
}

fn key_of(f: &FetchSettings) -> (r: Option<String>)
    ensures
        seen(r) == f.key(),
{
    if let Some(t) = &f.token {
        if let Some(values) = &t.env_values {
            if values.len() > 0 {
                return Some(values[0].clone());
            }
        }
    }
    copy_text(&f.stored_api_key)
}

fn cookie_at_hand(f: &FetchSettings) -> (r: Option<String>)
    ensures
        seen(r) == f.cookie_at_hand(),
{
    if let Some(t) = &f.token {
        if t.cookie_header.is_some() {
            return copy_text(&t.cookie_header);
        }
    }
    copy_text(&f.stored_cookie)
}

fn is_filled(value: &Option<String>) -> (r: bool)
    ensures
        r == filled(seen(*value)),
{
    match value {
        Some(v) => !trim(v.as_str()).is_empty(),
        None => false,
    }
}

fn takes_browser_cookies(f: &FetchSettings) -> (r: bool)
    ensures
        r == f.takes_browser_cookies(),
{
    let source = f.cookie_source.as_str();
    same(source, "auto") || same(source, "browser") || same(source, "web")
}

fn usage_mode(f: &FetchSettings) -> (r: SourceMode)
    ensures
        r == f.usage(),
{
    match f.usage_source {
        Some(m) => m,
        None => SourceMode::Auto,
    }
}

fn first_source(provider: &Provider, f: &FetchSettings, browser: Option<&str>) -> (r: (
    SourceMode,
    Option<String>,
))
    ensures
        (r.0, seen(r.1)) == first_choice(*provider, *f, crate::text::glimpsed(browser)),
{
    let usage = usage_mode(f);
    let env = has_env(f);
    if provider.cookie_domain.is_none() {
        return (if env { SourceMode::OAuth } else { usage }, None);
    }
    if env {
        return (SourceMode::OAuth, None);
    }
    let is_keyed = (provider.id == ProviderId::Kimi || provider.id == ProviderId::OpenCodeGo)
        && is_filled(&key_of(f));
    let source = f.cookie_source.as_str();
    if same(source, "off") {
        return if provider_uses_oauth_without_cookies(provider.id, usage) {
            (SourceMode::OAuth, None)
        } else if is_keyed && usage == SourceMode::Auto {
            (SourceMode::Auto, None)
        } else {
            (SourceMode::Cli, None)
        };
    }
    if same(source, "manual") {
        let cookie = cookie_at_hand(f);
        let mode = if is_keyed && usage == SourceMode::Auto {
            SourceMode::Auto
        } else if cookie.is_some() {
            SourceMode::Web
        } else if provider_uses_oauth_without_cookies(provider.id, usage) {
            SourceMode::OAuth
        } else {
            SourceMode::Cli
        };
        return (mode, cookie);
    }
    if takes_browser_cookies(f) {
        let cookie = cookie_at_hand(f);
        if cookie.is_some() {
            return (usage, cookie);
        }
        return (usage, keep_nonempty(browser));
    }
    (usage, copy_text(&f.stored_cookie))
}

/// The domain for whose cookie the browser is asked at first, if it is.
pub fn wants_browser_cookie(provider: &Provider, f: &FetchSettings) -> (r: Option<String>)
    ensures
        seen(r) == (if asks_browser(*provider, *f) {
            cookie_domain(*provider, f.region_domain@)
        } else {
            None
        }),
{
    if provider.cookie_domain.is_some() && !has_env(f) && takes_browser_cookies(f)
        && cookie_at_hand(f).is_none() {
        provider_cookie_domain(provider, f.region_domain.as_str())
    } else {
        None
    }
}

/// The domain for whose cookie the browser is asked again, if it is. `first` is the cookie that
/// it gave when it was asked at first.
pub fn wants_browser_cookie_again(provider: &Provider, f: &FetchSettings, first: Option<&str>) -> (r:
    Option<String>)
    ensures
        seen(r) == (if asks_browser_again(*provider, *f, crate::text::glimpsed(first)) {
            cookie_domain(*provider, f.region_domain@)
        } else {
            None
        }),
{
    let (mode, cookie) = first_source(provider, f, first);
    if mode == SourceMode::Cli && !same(f.cookie_source.as_str(), "off") && !provider.supports_cli
        && !is_filled(&cookie) {
        provider_cookie_domain(provider, f.region_domain.as_str())
    } else {
        None
    }
}

/// With what the usage of a provider is fetched. `first` and `second` are the cookies that the
/// browser gave when it was asked and asked again.
pub fn build_fetch_context(
    provider: &Provider,
    f: &FetchSettings,
    first: Option<&str>,
    second: Option<&str>,
) -> (r: FetchContext)
    ensures
        r@ == context_of(
            *provider,
            *f,
            crate::text::glimpsed(first),
            crate::text::glimpsed(second),
        ),
{
    let (mode, cookie) = first_source(provider, f, first);
    let mut source_mode = mode;
    let mut header = cookie;
    let source = f.cookie_source.as_str();
    if mode == SourceMode::Cli && !same(source, "off") && !provider.supports_cli {
        if !is_filled(&header) {
            header = if provider_cookie_domain(provider, f.region_domain.as_str()).is_some() {
                keep_nonempty(second)
            } else {
                None
            };
        }
        source_mode = SourceMode::Web;
    }
    let gateway_url = if provider.id == ProviderId::Wayfinder {
        keep_nonempty(Some(f.gateway_url.as_str()))
    } else {
        None
    };
    FetchContext {
        source_mode,
        manual_cookie_header: header,
        api_key: key_of(f),
        workspace_id: keep_nonempty(Some(trim(f.workspace_id.as_str()))),
        api_region: keep_nonempty(Some(trim(f.api_region.as_str()))),
        gateway_url,
        auto_prefer_web: f.token.is_some() || same(source, "manual"),
        web_timeout: f.web_timeout,
    }
}

/// Where the user turned cookies off, none is sent and the browser is not asked.
pub proof fn cookies_off_means_no_cookies(
    provider: Provider,
    f: FetchSettings,
    first: Option<Seq<char>>,
    second: Option<Seq<char>>,
)
    requires
        f.cookie_source@ == "off"@,
    ensures
        context_of(provider, f, first, second).manual_cookie_header is None,
        !asks_browser(provider, f),
        !asks_browser_again(provider, f, first),
{
    reveal_strlit("off");
    reveal_strlit("manual");
    reveal_strlit("auto");
    reveal_strlit("browser");
    reveal_strlit("web");
    assert("web"@[0] == 'w' && "off"@[0] == 'o');
}

/// A provider without a command line is never asked through it, unless cookies are off.
pub proof fn missing_cli_is_never_asked(
    provider: Provider,
    f: FetchSettings,
    first: Option<Seq<char>>,
    second: Option<Seq<char>>,
)
    requires
        !provider.supports_cli,
        f.cookie_source@ != "off"@,
    ensures
        context_of(provider, f, first, second).source_mode != SourceMode::Cli,
{
}

/// The key of the selected token account goes before the stored one.
pub proof fn token_key_goes_first(
    provider: Provider,
    f: FetchSettings,
    first: Option<Seq<char>>,
    second: Option<Seq<char>>,
)
    requires
        f.token_key() is Some,
    ensures
        context_of(provider, f, first, second).api_key == f.token_key(),
{
}

/// What the browser answers counts only where it is asked.
pub proof fn unasked_browser_changes_nothing(
    provider: Provider,
    f: FetchSettings,
    first: Option<Seq<char>>,
    second: Option<Seq<char>>,
    other: Option<Seq<char>>,
)
    ensures
        !asks_browser(provider, f) ==> context_of(provider, f, first, second) == context_of(
            provider,
            f,
            other,
            second,
        ),
        !asks_browser_again(provider, f, first) ==> context_of(provider, f, first, second)
            == context_of(provider, f, first, other),
{
    if !asks_browser(provider, f) {
        assert(first_choice(provider, f, first) == first_choice(provider, f, other));
    }
}

/// The longest wait for a provider that answers slowly, in seconds.
pub const SLOW_PROVIDER_FETCH_TIMEOUT: u64 = 75;

/// The wait for any other provider, in seconds.
pub const DEFAULT_PROVIDER_FETCH_TIMEOUT: u64 = 35;

/// The longest wait that the context of a fetch can ask for, in seconds.
pub const MAX_CONTEXT_FETCH_TIMEOUT: u64 = 65;

/// How long a provider is waited for, in seconds.
pub open spec fn fetch_timeout(id: ProviderId, web_timeout: int) -> int {
    let own = match id {
        ProviderId::Claude | ProviderId::Codex | ProviderId::Copilot => SLOW_PROVIDER_FETCH_TIMEOUT,
        _ => DEFAULT_PROVIDER_FETCH_TIMEOUT,
    } as int;
    let asked = if web_timeout + 5 < MAX_CONTEXT_FETCH_TIMEOUT {
        web_timeout + 5
    } else {
        MAX_CONTEXT_FETCH_TIMEOUT as int
    };
    if own < asked {
        asked
    } else {
        own
    }
}

/// How long a provider is waited for, in seconds: what the context asks for and five more, but
/// within the bounds of the provider.
pub fn provider_fetch_timeout(id: ProviderId, ctx: &FetchContext) -> (r: u64)
    ensures
        r == fetch_timeout(id, ctx.web_timeout as int),
{
    let own: u64 = match id {
        ProviderId::Claude | ProviderId::Codex | ProviderId::Copilot => SLOW_PROVIDER_FETCH_TIMEOUT,
        _ => DEFAULT_PROVIDER_FETCH_TIMEOUT,
    };
    let asked: u64 = if ctx.web_timeout < 60 {
        ctx.web_timeout + 5
    } else {
        MAX_CONTEXT_FETCH_TIMEOUT
    };
    if own < asked {
        asked
    } else {
        own
    }
}

/// No provider is waited for less than 35 or more than 75 seconds.
pub proof fn waits_are_bounded(id: ProviderId, web_timeout: int)
    ensures
        DEFAULT_PROVIDER_FETCH_TIMEOUT <= fetch_timeout(id, web_timeout)
            <= SLOW_PROVIDER_FETCH_TIMEOUT,
{
}

/// What the selected token account brings along goes before what is stored: its first value as the
/// key, its cookie as the cookie.
pub proof fn the_token_account_goes_before_what_is_stored(f: FetchSettings, t: TokenOverride, i: int)
    ensures
        f.token is None ==> f.key() == seen(f.stored_api_key) && f.cookie_at_hand() == seen(
            f.stored_cookie,
        ) && !f.has_env(),
        f.token == Some(t) && t.env_values is Some && t.env_values->Some_0@.len() > 0 ==> f.key()
            == Some(t.env_values->Some_0@[0]@),
        f.token == Some(t) && t.env_values is None ==> f.key() == seen(f.stored_api_key)
            && !f.has_env(),
        f.token == Some(t) && t.env_values is Some ==> f.has_env(),
        f.token == Some(t) && t.cookie_header is Some ==> f.cookie_at_hand() == Some(
            t.cookie_header->Some_0@,
        ),
        f.token == Some(t) && t.cookie_header is None ==> f.cookie_at_hand() == seen(
            f.stored_cookie,
        ),
        f.usage_source is None ==> f.usage() == SourceMode::Auto,
        f.usage_source matches Some(m) ==> f.usage() == m,
{
}

/// Two providers are reached by OAuth without cookies: the tool's, unless its command line was
/// chosen, and one other where OAuth or nothing was chosen. No other provider is.
pub proof fn two_providers_need_no_cookies(id: ProviderId, mode: SourceMode)
    ensures
        id == ProviderId::Claude ==> (oauth_without_cookies(id, mode) <==> mode != SourceMode::Cli),
        id == ProviderId::Grok ==> (oauth_without_cookies(id, mode) <==> mode == SourceMode::Auto
            || mode == SourceMode::OAuth),
        id != ProviderId::Claude && id != ProviderId::Grok ==> !oauth_without_cookies(id, mode),
{
}

/// The domain of the cookies is the provider's own, and that of the region for the providers that
/// have regions.
pub proof fn regions_have_their_own_cookies(provider: Provider, region: Seq<char>)
    ensures
        provider.id == ProviderId::MiniMax || provider.id == ProviderId::Alibaba ==> cookie_domain(
            provider,
            region,
        ) == Some(region),
        provider.id != ProviderId::MiniMax && provider.id != ProviderId::Alibaba ==> cookie_domain(
            provider,
            region,
        ) == seen(provider.cookie_domain),
{
}

/// A token account that sets the environment is used by OAuth, without a cookie.
pub proof fn an_environment_is_used_by_oauth(
    provider: Provider,
    f: FetchSettings,
    first: Option<Seq<char>>,
    second: Option<Seq<char>>,
)
    requires
        f.has_env(),
    ensures
        context_of(provider, f, first, second).source_mode == SourceMode::OAuth,
        context_of(provider, f, first, second).manual_cookie_header is None,
{
}

/// Where cookies are off the provider is reached by OAuth if that needs none, by its key if it has
/// one and nothing else was chosen, and else by its command line.
pub proof fn without_cookies_another_way_is_taken(
    provider: Provider,
    f: FetchSettings,
    first: Option<Seq<char>>,
    second: Option<Seq<char>>,
)
    requires
        f.cookie_source@ == "off"@,
        !f.has_env(),
        provider.cookie_domain is Some,
    ensures
        ({
            let mode = context_of(provider, f, first, second).source_mode;
            let has_key = f.key() is Some && trimmed(f.key()->Some_0).len() > 0;
            &&& oauth_without_cookies(provider.id, f.usage()) ==> mode == SourceMode::OAuth
            &&& (provider.id == ProviderId::Kimi || provider.id == ProviderId::OpenCodeGo) && has_key
                && f.usage() == SourceMode::Auto ==> mode == SourceMode::Auto
            &&& (provider.id == ProviderId::Kimi || provider.id == ProviderId::OpenCodeGo) && !has_key
                ==> mode == SourceMode::Cli
            &&& !oauth_without_cookies(provider.id, f.usage()) && provider.id != ProviderId::Kimi
                && provider.id != ProviderId::OpenCodeGo ==> mode == SourceMode::Cli
        }),
{
}

/// A cookie that was entered by hand is sent, over the web.
pub proof fn a_cookie_by_hand_is_sent_over_the_web(
    provider: Provider,
    f: FetchSettings,
    first: Option<Seq<char>>,
    second: Option<Seq<char>>,
)
    requires
        f.cookie_source@ == "manual"@,
        !f.has_env(),
        provider.cookie_domain is Some,
    ensures
        ({
            let r = context_of(provider, f, first, second);
            &&& f.cookie_at_hand() is Some && provider.id != ProviderId::Kimi && provider.id
                != ProviderId::OpenCodeGo ==> r.source_mode == SourceMode::Web
                && r.manual_cookie_header == f.cookie_at_hand()
            &&& f.cookie_at_hand() is Some ==> r.manual_cookie_header == f.cookie_at_hand()
            &&& f.cookie_at_hand() is None && oauth_without_cookies(provider.id, f.usage())
                && provider.id != ProviderId::Kimi && provider.id != ProviderId::OpenCodeGo
                ==> r.source_mode == SourceMode::OAuth && r.manual_cookie_header is None
            &&& f.cookie_at_hand() is None && !oauth_without_cookies(provider.id, f.usage())
                && provider.supports_cli && provider.id != ProviderId::Kimi && provider.id
                != ProviderId::OpenCodeGo ==> r.source_mode == SourceMode::Cli
            &&& r.auto_prefer_web
        }),
{
    reveal_strlit("off");
    reveal_strlit("manual");
    assert("off"@.len() == 3);
    assert("manual"@.len() == 6);
}

/// Where cookies come from the browser the source is the one that was chosen, and the cookie the one
/// at hand, else what the browser gives.
pub proof fn the_browsers_cookie_fills_in(
    provider: Provider,
    f: FetchSettings,
    given: Seq<char>,
    second: Option<Seq<char>>,
)
    requires
        f.cookie_source@ == "auto"@ || f.cookie_source@ == "browser"@ || f.cookie_source@ == "web"@,
        !f.has_env(),
        provider.cookie_domain is Some,
        provider.supports_cli,
    ensures
        ({
            let r = context_of(provider, f, Some(given), second);
            &&& r.source_mode == f.usage()
            &&& f.cookie_at_hand() is Some ==> r.manual_cookie_header == f.cookie_at_hand()
            &&& f.cookie_at_hand() is None && given.len() > 0 ==> r.manual_cookie_header == Some(
                given,
            )
            &&& f.cookie_at_hand() is None && given.len() == 0 ==> r.manual_cookie_header is None
            &&& asks_browser(provider, f) <==> f.cookie_at_hand() is None
        }),
{
    reveal_strlit("off");
    reveal_strlit("manual");
    reveal_strlit("auto");
    reveal_strlit("browser");
    reveal_strlit("web");
    assert("off"@.len() == 3 && "off"@[0] == 'o');
    assert("web"@.len() == 3 && "web"@[0] == 'w');
    assert("manual"@.len() == 6);
    assert("auto"@.len() == 4);
    assert("browser"@.len() == 7);
}

/// A provider without a command line is reached over the web in its place, with the cookie at hand,
/// or the one that the browser gives when it is asked again.
pub proof fn the_web_takes_the_place_of_a_missing_command_line(
    provider: Provider,
    f: FetchSettings,
    first: Option<Seq<char>>,
    second: Seq<char>,
)
    requires
        !provider.supports_cli,
        f.cookie_source@ != "off"@,
        first_choice(provider, f, first).0 == SourceMode::Cli,
    ensures
        ({
            let r = context_of(provider, f, first, Some(second));
            let cookie = first_choice(provider, f, first).1;
            let good = cookie is Some && trimmed(cookie->Some_0).len() > 0;
            let domain = cookie_domain(provider, f.region_domain@);
            &&& r.source_mode == SourceMode::Web
            &&& good ==> r.manual_cookie_header == cookie && !asks_browser_again(provider, f, first)
            &&& !good && domain is Some ==> asks_browser_again(provider, f, first)
            &&& !good && domain is Some && second.len() > 0 ==> r.manual_cookie_header == Some(
                second,
            )
            &&& !good && domain is None ==> r.manual_cookie_header is None
        }),
{
}

/// A provider without cookies of its own gets none, and is reached as was chosen.
pub proof fn a_provider_without_cookies_gets_none(
    provider: Provider,
    f: FetchSettings,
    first: Option<Seq<char>>,
    second: Option<Seq<char>>,
)
    requires
        provider.cookie_domain is None,
        provider.supports_cli,
    ensures
        context_of(provider, f, first, second).manual_cookie_header is None,
        !f.has_env() ==> context_of(provider, f, first, second).source_mode == f.usage(),
        !asks_browser(provider, f),
{
}

/// A context carries the key, the workspace and the region that are set, the latter two without
/// white space around them, the gateway only for the provider that has one, and the time to wait.
pub proof fn a_context_carries_what_is_set(
    provider: Provider,
    f: FetchSettings,
    first: Option<Seq<char>>,
    second: Option<Seq<char>>,
)
    ensures
        ({
            let r = context_of(provider, f, first, second);
            &&& r.api_key == f.key()
            &&& trimmed(f.workspace_id@).len() > 0 ==> r.workspace_id == Some(
                trimmed(f.workspace_id@),
            )
            &&& trimmed(f.workspace_id@).len() == 0 ==> r.workspace_id is None
            &&& trimmed(f.api_region@).len() > 0 ==> r.api_region == Some(trimmed(f.api_region@))
            &&& trimmed(f.api_region@).len() == 0 ==> r.api_region is None
            &&& provider.id == ProviderId::Wayfinder && f.gateway_url@.len() > 0 ==> r.gateway_url
                == Some(f.gateway_url@)
            &&& provider.id != ProviderId::Wayfinder ==> r.gateway_url is None
            &&& r.web_timeout == f.web_timeout
            &&& f.token is Some ==> r.auto_prefer_web
            &&& f.token is None && f.cookie_source@ != "manual"@ ==> !r.auto_prefer_web
        }),
{
}

/// A slow provider is waited for 75 seconds; any other one for five seconds longer than the web is
/// waited for, but at least 35 and at most 65 seconds.
pub proof fn providers_are_waited_for_as_they_need(id: ProviderId, web_timeout: int)
    ensures
        id == ProviderId::Claude || id == ProviderId::Codex || id == ProviderId::Copilot
            ==> fetch_timeout(id, web_timeout) == 75,
        id != ProviderId::Claude && id != ProviderId::Codex && id != ProviderId::Copilot ==> {
            &&& web_timeout <= 30 ==> fetch_timeout(id, web_timeout) == 35
            &&& 30 <= web_timeout <= 60 ==> fetch_timeout(id, web_timeout) == web_timeout + 5
            &&& web_timeout >= 60 ==> fetch_timeout(id, web_timeout) == 65
        },
{
}

} // verus!
