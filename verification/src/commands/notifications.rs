//! What the user is told about quotas after a refresh.

use vstd::prelude::*;
use vstd::string::StringExecFns;
use crate::moment::Moment;
use crate::outside::{parse_rfc3339, rfc3339_moment, uuid_text, write_uuid};
use crate::quantity::Quantity;
use crate::settings::Settings;
use crate::snapshot::{Provider, ProviderId, ProviderUsageSnapshot, RateWindowSnapshot, UsageView, WindowView};
use crate::text::{ascii_lower, borrow_text, concat2, copy_text, glimpsed, nonblank, normalize_string, same, seen, to_ascii_lower, trim, trimmed};

verus! {

/// What tells the accounts of a provider apart: the token account, the address, or the
/// organization; nothing where there is none of these.
pub open spec fn account_identity(s: UsageView, token_account: Option<u128>) -> Seq<char> {
    match token_account {
        Some(id) => "token-account:"@ + uuid_text(id),
        None => match nonblank(s.account_email) {
            Some(email) => ascii_lower(email),
            None => match nonblank(s.account_organization) {
                Some(org) => "org:"@ + ascii_lower(org),
                None => Seq::empty(),
            },
        },
    }
}

/// What tells the accounts of a provider apart. The plan does not: it is shown, and may change.
pub fn quota_notification_account_identity(
    snapshot: &ProviderUsageSnapshot,
    token_account_id: Option<u128>,
) -> (r: String)
    ensures
        r@ == account_identity(snapshot@, token_account_id),
{
    if let Some(id) = token_account_id {
        return concat2("token-account:", write_uuid(id).as_str());
    }
    if let Some(email) = normalize_string(borrow_text(&snapshot.account_email)) {
        return to_ascii_lower(email.as_str());
    }
    if let Some(org) = normalize_string(borrow_text(&snapshot.account_organization)) {
        return concat2("org:", to_ascii_lower(org.as_str()).as_str());
    }
    String::new()
}

/// The plan and everything else that is only shown do not make another account.
pub proof fn identity_ignores_what_is_shown(a: UsageView, b: UsageView, token: Option<u128>)
    requires
        a.account_email == b.account_email,
        a.account_organization == b.account_organization,
    ensures
        account_identity(a, token) == account_identity(b, token),
{
}

/// Whose pace is watched: the token account, or the source together with the address. Only
/// two providers are watched, and only where it is known whose usage it is.
pub open spec fn watched_identity(
    provider: ProviderId,
    source_label: Seq<char>,
    account_email: Option<Seq<char>>,
    token_account: Option<u128>,
) -> Option<Seq<char>> {
    if provider != ProviderId::Claude && provider != ProviderId::Codex {
        None
    } else if token_account is Some {
        Some("token-account:"@ + uuid_text(token_account->0))
    } else {
        let source = ascii_lower(trimmed(source_label));
        if source.len() > 0 && nonblank(account_email) is Some {
            Some(source + ":"@ + ascii_lower(nonblank(account_email)->0))
        } else {
            None
        }
    }
}

/// Whose pace is watched.
pub fn predictive_warning_identity(
    provider: ProviderId,
    source_label: &str,
    account_email: Option<&str>,
    token_account_id: Option<u128>,
) -> (r: Option<String>)
    ensures
        seen(r) == watched_identity(
            provider,
            source_label@,
            glimpsed(account_email),
            token_account_id,
        ),
{
    if provider != ProviderId::Claude && provider != ProviderId::Codex {
        return None;
    }
    if let Some(id) = token_account_id {
        return Some(concat2("token-account:", write_uuid(id).as_str()));
    }
    let mut source = to_ascii_lower(trim(source_label));
    match normalize_string(account_email) {
        Some(account) => {
            if source.as_str().is_empty() {
                return None;
            }
            source.append(":");
            source.append(to_ascii_lower(account.as_str()).as_str());
            Some(source)
        },
        None => None,
    }
}

/// The quota windows that are watched.
#[derive(Clone, Copy, Debug, PartialEq, Eq, Structural)]
pub enum QuotaWindow {
    Session,
    Weekly,
}

/// One thing to do about a quota.
#[derive(Debug)]
pub enum Notice {
    /// Compare with the thresholds.
    Threshold { provider: ProviderId, account: String, window: QuotaWindow, used: Quantity },
    /// See whether a session ended or began.
    SessionTransition { provider: ProviderId, account: String, used: Quantity },
    /// Run the hooks of the user.
    Hook { provider: ProviderId, owner: Option<String>, window: QuotaWindow, used: Quantity },
    /// Switch the watch on the pace of a provider on or off.
    PaceWatch { provider: ProviderId, enabled: bool },
    /// See whether the pace is such that the window will run out.
    Pace {
        provider: ProviderId,
        identity: String,
        window: QuotaWindow,
        used: Quantity,
        window_minutes: Option<u32>,
        resets_at: Option<Moment>,
        reset_description: Option<String>,
        observed_at: Option<Moment>,
        default_window_minutes: u32,
    },
}

#[verifier::ext_equal]
pub enum NoticeView {
    Threshold { provider: ProviderId, account: Seq<char>, window: QuotaWindow, used: Quantity },
    SessionTransition { provider: ProviderId, account: Seq<char>, used: Quantity },
    Hook { provider: ProviderId, owner: Option<Seq<char>>, window: QuotaWindow, used: Quantity },
    PaceWatch { provider: ProviderId, enabled: bool },
    Pace {
        provider: ProviderId,
        identity: Seq<char>,
        window: QuotaWindow,
        used: Quantity,
        window_minutes: Option<u32>,
        resets_at: Option<Moment>,
        reset_description: Option<Seq<char>>,
        observed_at: Option<Moment>,
        default_window_minutes: u32,
    },
}

impl View for Notice {
    type V = NoticeView;

    open spec fn view(&self) -> NoticeView {
        match self {
            Notice::Threshold { provider, account, window, used } => NoticeView::Threshold {
                provider: *provider,
                account: account@,
                window: *window,
                used: *used,
            },
            Notice::SessionTransition { provider, account, used } => NoticeView::SessionTransition {
                provider: *provider,
                account: account@,
                used: *used,
            },
            Notice::Hook { provider, owner, window, used } => NoticeView::Hook {
                provider: *provider,
                owner: seen(*owner),
                window: *window,
                used: *used,
            },
            Notice::PaceWatch { provider, enabled } => NoticeView::PaceWatch {
                provider: *provider,
                enabled: *enabled,
            },
            Notice::Pace {
                provider,
                identity,
                window,
                used,
                window_minutes,
                resets_at,
                reset_description,
                observed_at,
                default_window_minutes,
            } => NoticeView::Pace {
                provider: *provider,
                identity: identity@,
                window: *window,
                used: *used,
                window_minutes: *window_minutes,
                resets_at: *resets_at,
                reset_description: seen(*reset_description),
                observed_at: *observed_at,
                default_window_minutes: *default_window_minutes,
            },
        }
    }
}

/// The views of notices.
pub open spec fn notice_views(v: Seq<Notice>) -> Seq<NoticeView> {
    v.map_values(|n: Notice| n@)
}

fn say(out: &mut Vec<Notice>, notice: Notice)
    ensures
        notice_views(final(out)@) == notice_views(old(out)@).push(notice@),
{
    let ghost before = out@;
    out.push(notice);
    assert(notice_views(out@) =~= notice_views(before).push(notice@));
}

/// The run of hooks for a window, where the user has hooks. Whose quota it is stays out where
/// personal data are hidden or nothing is known of it.
pub open spec fn hook_notices(
    settings: Settings,
    provider: ProviderId,
    account: Seq<char>,
    window: QuotaWindow,
    used: Quantity,
) -> Seq<NoticeView> {
    if settings.hooks_enabled {
        seq![
            NoticeView::Hook {
                provider,
                owner: if settings.hide_personal_info || account.len() == 0 {
                    None
                } else {
                    Some(account)
                },
                window,
                used,
            },
        ]
    } else {
        Seq::empty()
    }
}

fn dispatch_quota_hooks(
    out: &mut Vec<Notice>,
    settings: &Settings,
    provider: ProviderId,
    account: &str,
    window: QuotaWindow,
    used: Quantity,
)
    ensures
        notice_views(final(out)@) == notice_views(old(out)@) + hook_notices(
            *settings,
            provider,
            account@,
            window,
            used,
        ),
{
    let ghost before = notice_views(out@);
    if settings.hooks_enabled {
        let owner = if settings.hide_personal_info || account.is_empty() {
            None
        } else {
            Some(account.to_owned())
        };
        say(out, Notice::Hook { provider, owner, window, used });
    }
    assert(notice_views(out@) =~= before + hook_notices(*settings, provider, account@, window, used));
}

/// The look at the pace of one window, unless it is a placeholder.
pub open spec fn pace_of_window(
    provider: ProviderId,
    identity: Seq<char>,
    window: QuotaWindow,
    w: WindowView,
    observed_at: Option<Moment>,
    default_window_minutes: u32,
) -> Seq<NoticeView> {
    if w.is_informational {
        Seq::empty()
    } else {
        seq![
            NoticeView::Pace {
                provider,
                identity,
                window,
                used: w.used_percent,
                window_minutes: w.window_minutes,
                resets_at: match w.resets_at {
                    Some(t) => rfc3339_moment(t),
                    None => None,
                },
                reset_description: w.reset_description,
                observed_at,
                default_window_minutes,
            },
        ]
    }
}

/// Whether the pace of providers is watched.
pub open spec fn pace_is_watched(settings: Settings) -> bool {
    settings.show_notifications && settings.predictive_pace_warning_enabled
}

/// What is done about the pace of a provider.
pub open spec fn pace_notices(
    settings: Settings,
    provider: ProviderId,
    s: UsageView,
    token_account: Option<u128>,
) -> Seq<NoticeView> {
    let enabled = pace_is_watched(settings);
    let watch = seq![NoticeView::PaceWatch { provider, enabled }];
    let identity = watched_identity(provider, s.source_label, s.account_email, token_account);
    let observed_at = rfc3339_moment(s.updated_at);
    if !enabled || identity is None {
        watch
    } else {
        watch + pace_of_window(
            provider,
            identity->0,
            QuotaWindow::Session,
            s.primary,
            observed_at,
            300,
        ) + match s.secondary {
            Some(w) => pace_of_window(
                provider,
                identity->0,
                QuotaWindow::Weekly,
                w,
                observed_at,
                10080,
            ),
            None => Seq::empty(),
        }
    }
}

fn look_at_window(
    out: &mut Vec<Notice>,
    provider: ProviderId,
    identity: &str,
    window: QuotaWindow,
    w: &RateWindowSnapshot,
    observed_at: Option<Moment>,
    default_window_minutes: u32,
)
    ensures
        notice_views(final(out)@) == notice_views(old(out)@) + pace_of_window(
            provider,
            identity@,
            window,
            w@,
            observed_at,
            default_window_minutes,
        ),
{
    let ghost before = notice_views(out@);
    if !w.is_informational {
        let resets_at = match &w.resets_at {
            Some(t) => parse_rfc3339(t.as_str()),
            None => None,
        };
        say(
            out,
            Notice::Pace {
                provider,
                identity: identity.to_owned(),
                window,
                used: w.used_percent,
                window_minutes: w.window_minutes,
                resets_at,
                reset_description: copy_text(&w.reset_description),
                observed_at,
                default_window_minutes,
            },
        );
    }
    assert(notice_views(out@) =~= before + pace_of_window(
        provider,
        identity@,
        window,
        w@,
        observed_at,
        default_window_minutes,
    ));
}

/// What is done about the pace of a provider: the watch is switched as the settings say; where
/// it is on and it is known whose usage it is, the session and the week are looked at.
pub fn notify_predictive_pace(
    settings: &Settings,
    provider: ProviderId,
    snapshot: &ProviderUsageSnapshot,
    token_account_id: Option<u128>,
) -> (r: Vec<Notice>)
    ensures
        notice_views(r@) == pace_notices(*settings, provider, snapshot@, token_account_id),
{
    let enabled = settings.show_notifications && settings.predictive_pace_warning_enabled;
    let mut out: Vec<Notice> = Vec::new();
    assert(notice_views(out@) =~= Seq::empty());
    say(&mut out, Notice::PaceWatch { provider, enabled });
    assert(notice_views(out@) =~= seq![NoticeView::PaceWatch { provider, enabled }]);
    if !enabled {
        return out;
    }
    match predictive_warning_identity(
        provider,
        snapshot.source_label.as_str(),
        borrow_text(&snapshot.account_email),
        token_account_id,
    ) {
        None => out,
        Some(identity) => {
            let observed_at = parse_rfc3339(snapshot.updated_at.as_str());
            look_at_window(
                &mut out,
                provider,
                identity.as_str(),
                QuotaWindow::Session,
                &snapshot.primary,
                observed_at,
                300,
            );
            if let Some(w) = &snapshot.secondary {
                look_at_window(
                    &mut out,
                    provider,
                    identity.as_str(),
                    QuotaWindow::Weekly,
                    w,
                    observed_at,
                    10080,
                );
            }
            assert(notice_views(out@) =~= pace_notices(
                *settings,
                provider,
                snapshot@,
                token_account_id,
            ));
            out
        },
    }
}

/// What is done about the session of a provider.
pub open spec fn session_notices(
    settings: Settings,
    provider: ProviderId,
    account: Seq<char>,
    w: WindowView,
) -> Seq<NoticeView> {
    if w.is_informational {
        Seq::empty()
    } else {
        seq![
            NoticeView::Threshold {
                provider,
                account,
                window: QuotaWindow::Session,
                used: w.used_percent,
            },
            NoticeView::SessionTransition { provider, account, used: w.used_percent },
        ] + hook_notices(settings, provider, account, QuotaWindow::Session, w.used_percent)
    }
}

/// What is done about the week of a provider.
pub open spec fn weekly_notices(
    settings: Settings,
    provider: ProviderId,
    account: Seq<char>,
    w: Option<WindowView>,
) -> Seq<NoticeView> {
    if w is None || w->0.is_informational {
        Seq::empty()
    } else {
        seq![
            NoticeView::Threshold {
                provider,
                account,
                window: QuotaWindow::Weekly,
                used: w->0.used_percent,
            },
        ] + hook_notices(settings, provider, account, QuotaWindow::Weekly, w->0.used_percent)
    }
}

/// What is done about the quotas of one provider.
pub open spec fn provider_notices(
    settings: Settings,
    provider: ProviderId,
    s: UsageView,
    token_account: Option<u128>,
) -> Seq<NoticeView> {
    let account = account_identity(s, token_account);
    session_notices(settings, provider, account, s.primary) + weekly_notices(
        settings,
        provider,
        account,
        s.secondary,
    ) + pace_notices(settings, provider, s, token_account)
}

fn notices_for_provider(
    settings: &Settings,
    provider: ProviderId,
    snapshot: &ProviderUsageSnapshot,
    token_account_id: Option<u128>,
) -> (r: Vec<Notice>)
    ensures
        notice_views(r@) == provider_notices(*settings, provider, snapshot@, token_account_id),
{
    let account = quota_notification_account_identity(snapshot, token_account_id);
    let mut out: Vec<Notice> = Vec::new();
    assert(notice_views(out@) =~= Seq::empty());
    if !snapshot.primary.is_informational {
        let used = snapshot.primary.used_percent;
        say(
            &mut out,
            Notice::Threshold {
                provider,
                account: account.clone(),
                window: QuotaWindow::Session,
                used,
            },
        );
        say(&mut out, Notice::SessionTransition { provider, account: account.clone(), used });
        dispatch_quota_hooks(
            &mut out,
            settings,
            provider,
            account.as_str(),
            QuotaWindow::Session,
            used,
        );
    }
    assert(notice_views(out@) =~= session_notices(
        *settings,
        provider,
        account@,
        snapshot@.primary,
    ));
    let ghost session = notice_views(out@);
    if let Some(weekly) = &snapshot.secondary {
        if !weekly.is_informational {
            let used = weekly.used_percent;
            say(
                &mut out,
                Notice::Threshold {
                    provider,
                    account: account.clone(),
                    window: QuotaWindow::Weekly,
                    used,
                },
            );
            dispatch_quota_hooks(
                &mut out,
                settings,
                provider,
                account.as_str(),
                QuotaWindow::Weekly,
                used,
            );
        }
    }
    assert(notice_views(out@) =~= session + weekly_notices(
        *settings,
        provider,
        account@,
        snapshot@.secondary,
    ));
    let ghost both = out@;
    let mut pace = notify_predictive_pace(settings, provider, snapshot, token_account_id);
    let ghost rest = pace@;
    out.append(&mut pace);
    assert(notice_views(out@) =~= notice_views(both) + notice_views(rest));
    out
}

/// The provider of a name, among those at or after `i`.
pub open spec fn provider_named(providers: Seq<Provider>, name: Seq<char>, i: int) -> Option<
    ProviderId,
>
    decreases providers.len() - i,
{
    if i >= providers.len() {
        None
    } else if providers[i].cli_name@ == name {
        Some(providers[i].id)
    } else {
        provider_named(providers, name, i + 1)
    }
}

fn find_provider(providers: &Vec<Provider>, name: &str) -> (r: Option<ProviderId>)
    ensures
        r == provider_named(providers@, name@, 0),
{
    let mut i: usize = 0;
    while i < providers.len()
        invariant
            i <= providers@.len(),
            provider_named(providers@, name@, 0) == provider_named(providers@, name@, i as int),
        decreases providers@.len() - i,
    {
        if same(providers[i].cli_name.as_str(), name) {
            return Some(providers[i].id);
        }
        i += 1;
    }
    None
}

/// The token account that is active for a provider, among those at or after `i`.
pub open spec fn token_of(tokens: Seq<(ProviderId, u128)>, id: ProviderId, i: int) -> Option<u128>
    decreases tokens.len() - i,
{
    if i >= tokens.len() {
        None
    } else if tokens[i].0 == id {
        Some(tokens[i].1)
    } else {
        token_of(tokens, id, i + 1)
    }
}

fn find_token(tokens: &Vec<(ProviderId, u128)>, id: ProviderId) -> (r: Option<u128>)
    ensures
        r == token_of(tokens@, id, 0),
{
    let mut i: usize = 0;
    while i < tokens.len()
        invariant
            i <= tokens@.len(),
            token_of(tokens@, id, 0) == token_of(tokens@, id, i as int),
        decreases tokens@.len() - i,
    {
        if tokens[i].0 == id {
            return Some(tokens[i].1);
        }
        i += 1;
    }
    None
}

/// What is done about the quotas that the first `n` snapshots show. A snapshot with an error,
/// or of a provider that is not known, is passed over.
pub open spec fn all_notices(
    settings: Settings,
    providers: Seq<Provider>,
    tokens: Seq<(ProviderId, u128)>,
    cached: Seq<ProviderUsageSnapshot>,
    n: int,
) -> Seq<NoticeView>
    decreases n,
{
    if n <= 0 {
        Seq::empty()
    } else {
        let s = cached[n - 1]@;
        let before = all_notices(settings, providers, tokens, cached, n - 1);
        if s.error is None && provider_named(providers, s.provider_id, 0) is Some {
            let id = provider_named(providers, s.provider_id, 0)->0;
            before + provider_notices(settings, id, s, token_of(tokens, id, 0))
        } else {
            before
        }
    }
}

/// What is done about the quotas after a refresh. `tokens` holds the active token account of
/// each provider that has one.
pub fn notify_usage_thresholds(
    settings: &Settings,
    providers: &Vec<Provider>,
    tokens: &Vec<(ProviderId, u128)>,
    cached: &Vec<ProviderUsageSnapshot>,
) -> (r: Vec<Notice>)
    ensures
        notice_views(r@) == all_notices(
            *settings,
            providers@,
            tokens@,
            cached@,
            cached@.len() as int,
        ),
{
    let mut out: Vec<Notice> = Vec::new();
    let mut i: usize = 0;
    assert(notice_views(out@) =~= Seq::empty());
    while i < cached.len()
        invariant
            i <= cached@.len(),
            notice_views(out@) == all_notices(*settings, providers@, tokens@, cached@, i as int),
        decreases cached@.len() - i,
    {
        let snapshot = &cached[i];
        if snapshot.error.is_none() {
            if let Some(id) = find_provider(providers, snapshot.provider_id.as_str()) {
                let token = find_token(tokens, id);
                let mut more = notices_for_provider(settings, id, snapshot, token);
                let ghost before = out@;
                let ghost rest = more@;
                out.append(&mut more);
                assert(notice_views(out@) =~= notice_views(before) + notice_views(rest));
            }
        }
        i += 1;
    }
    out
}

/// A placeholder session is not compared with thresholds and sets off no hook.
pub proof fn placeholders_are_not_announced(
    settings: Settings,
    provider: ProviderId,
    account: Seq<char>,
    w: WindowView,
)
    requires
        w.is_informational,
    ensures
        session_notices(settings, provider, account, w).len() == 0,
        weekly_notices(settings, provider, account, Some(w)).len() == 0,
{
}

/// Where personal data are hidden, hooks do not learn whose quota it is.
pub proof fn hooks_do_not_learn_hidden_names(
    settings: Settings,
    provider: ProviderId,
    account: Seq<char>,
    window: QuotaWindow,
    used: Quantity,
    i: int,
)
    requires
        settings.hide_personal_info,
        0 <= i < hook_notices(settings, provider, account, window, used).len(),
    ensures
        hook_notices(settings, provider, account, window, used)[i] == (NoticeView::Hook {
            provider,
            owner: None,
            window,
            used,
        }),
{
}

/// The accounts of one provider that come from different sources are watched apart.
pub proof fn sources_are_watched_apart(
    provider: ProviderId,
    a: Seq<char>,
    b: Seq<char>,
    email: Option<Seq<char>>,
)
    requires
        provider == ProviderId::Claude || provider == ProviderId::Codex,
        nonblank(email) is Some,
        ascii_lower(trimmed(a)).len() > 0,
        ascii_lower(trimmed(b)).len() > 0,
        ascii_lower(trimmed(a)) != ascii_lower(trimmed(b)),
    ensures
        watched_identity(provider, a, email, None) != watched_identity(provider, b, email, None),
{
    let x = ascii_lower(trimmed(a));
    let y = ascii_lower(trimmed(b));
    let t = ":"@ + ascii_lower(nonblank(email)->0);
    if x + ":"@ + ascii_lower(nonblank(email)->0) == y + ":"@ + ascii_lower(nonblank(email)->0) {
        let l = x + ":"@ + ascii_lower(nonblank(email)->0);
        let r = y + ":"@ + ascii_lower(nonblank(email)->0);
        assert(l.len() == x.len() + t.len());
        assert(r.len() == y.len() + t.len());
        assert(l.take(x.len() as int) =~= x);
        assert(r.take(y.len() as int) =~= y);
    }
}

/// Accounts are told apart by their token account; without one by their address, in which capitals
/// and white space around it do not count; without an address by their organization.
pub proof fn accounts_are_told_apart_by_their_best_mark(s: UsageView, id: u128, t: Seq<char>)
    ensures
        account_identity(s, Some(id)) == "token-account:"@ + uuid_text(id),
        s.account_email == Some(t) && trimmed(t).len() > 0 ==> account_identity(s, None)
            == ascii_lower(trimmed(t)),
        (s.account_email is None || trimmed(s.account_email->Some_0).len() == 0)
            && s.account_organization == Some(t) && trimmed(t).len() > 0 ==> account_identity(
            s,
            None,
        ) == "org:"@ + ascii_lower(trimmed(t)),
        s.account_email is None && s.account_organization is None ==> account_identity(
            s,
            None,
        ).len() == 0,
{
}

/// The pace is watched of two providers alone, by the token account, else by source and address; of
/// nobody where either of these is not known.
pub proof fn the_pace_is_watched_by_its_owner(
    provider: ProviderId,
    source: Seq<char>,
    email: Option<Seq<char>>,
    id: u128,
)
    ensures
        provider != ProviderId::Claude && provider != ProviderId::Codex ==> watched_identity(
            provider,
            source,
            email,
            Some(id),
        ) is None && watched_identity(provider, source, email, None) is None,
        provider == ProviderId::Claude || provider == ProviderId::Codex ==> {
            &&& watched_identity(provider, source, email, Some(id)) == Some(
                "token-account:"@ + uuid_text(id),
            )
            &&& email is None ==> watched_identity(provider, source, email, None) is None
            &&& ascii_lower(trimmed(source)).len() == 0 ==> watched_identity(
                provider,
                source,
                email,
                None,
            ) is None
            &&& ascii_lower(trimmed(source)).len() > 0 && email is Some && trimmed(
                email->Some_0,
            ).len() > 0 ==> watched_identity(provider, source, email, None) == Some(
                ascii_lower(trimmed(source)) + ":"@ + ascii_lower(trimmed(email->Some_0)),
            )
        },
{
}

/// A session is compared with the thresholds and looked at for its end and its beginning, a week
/// only compared, each by what is used of it.
pub proof fn windows_are_compared_by_what_is_used(
    settings: Settings,
    provider: ProviderId,
    account: Seq<char>,
    w: WindowView,
)
    requires
        !w.is_informational,
    ensures
        ({
            let session = session_notices(settings, provider, account, w);
            let week = weekly_notices(settings, provider, account, Some(w));
            &&& session.contains(
                (NoticeView::Threshold {
                    provider,
                    account,
                    window: QuotaWindow::Session,
                    used: w.used_percent,
                }),
            )
            &&& session.contains(
                (NoticeView::SessionTransition { provider, account, used: w.used_percent }),
            )
            &&& week.contains(
                (NoticeView::Threshold {
                    provider,
                    account,
                    window: QuotaWindow::Weekly,
                    used: w.used_percent,
                }),
            )
            &&& settings.hooks_enabled ==> session.len() == 3 && week.len() == 2
            &&& !settings.hooks_enabled ==> session.len() == 2 && week.len() == 1
            &&& settings.hooks_enabled && !settings.hide_personal_info && account.len() > 0 ==> {
                &&& session.contains(
                    (NoticeView::Hook {
                        provider,
                        owner: Some(account),
                        window: QuotaWindow::Session,
                        used: w.used_percent,
                    }),
                )
                &&& week.contains(
                    (NoticeView::Hook {
                        provider,
                        owner: Some(account),
                        window: QuotaWindow::Weekly,
                        used: w.used_percent,
                    }),
                )
            }
        }),
        weekly_notices(settings, provider, account, None).len() == 0,
{
    let session = session_notices(settings, provider, account, w);
    let week = weekly_notices(settings, provider, account, Some(w));
    assert(session[0] is Threshold);
    assert(session[1] is SessionTransition);
    assert(week[0] is Threshold);
    if settings.hooks_enabled {
        assert(session[2] is Hook);
        assert(week[1] is Hook);
    }
}

/// The watch on the pace is switched as the settings say; where it is on, the session and the week
/// are looked at with what is used of them, their resets and the time of the snapshot, a session as
/// one of five hours and a week as one of seven days where their length is not known.
pub proof fn the_pace_of_both_windows_is_looked_at(
    settings: Settings,
    provider: ProviderId,
    s: UsageView,
    token: Option<u128>,
)
    ensures
        ({
            let r = pace_notices(settings, provider, s, token);
            let on = settings.show_notifications && settings.predictive_pace_warning_enabled;
            let owner = watched_identity(provider, s.source_label, s.account_email, token);
            &&& r[0] == (NoticeView::PaceWatch { provider, enabled: on })
            &&& !on || owner is None ==> r.len() == 1
            &&& on && owner is Some && !s.primary.is_informational ==> {
                &&& r.len() >= 2
                &&& r[1] is Pace
                &&& r[1]->Pace_identity == owner->Some_0
                &&& r[1]->Pace_window == QuotaWindow::Session
                &&& r[1]->Pace_used == s.primary.used_percent
                &&& r[1]->Pace_window_minutes == s.primary.window_minutes
                &&& r[1]->Pace_reset_description == s.primary.reset_description
                &&& s.primary.resets_at is Some ==> r[1]->Pace_resets_at == rfc3339_moment(
                    s.primary.resets_at->Some_0,
                )
                &&& r[1]->Pace_observed_at == rfc3339_moment(s.updated_at)
                &&& r[1]->Pace_default_window_minutes == 300
            }
            &&& on && owner is Some && s.secondary is Some
                && !s.secondary->Some_0.is_informational ==> {
                &&& r.last() is Pace
                &&& r.last()->Pace_identity == owner->Some_0
                &&& r.last()->Pace_window == QuotaWindow::Weekly
                &&& r.last()->Pace_used == s.secondary->Some_0.used_percent
                &&& r.last()->Pace_window_minutes == s.secondary->Some_0.window_minutes
                &&& r.last()->Pace_default_window_minutes == 10_080
            }
            &&& r.len() <= 3
        }),
{
}

/// A name stands for the first provider that has it, and for none where none has.
pub proof fn a_name_stands_for_the_first_provider(
    providers: Seq<Provider>,
    name: Seq<char>,
    i: int,
    k: int,
)
    requires
        0 <= i,
    ensures
        i <= k < providers.len() && providers[k].cli_name@ == name && (forall|j: int|
            i <= j < k ==> (#[trigger] providers[j]).cli_name@ != name) ==> provider_named(
            providers,
            name,
            i,
        ) == Some(providers[k].id),
        (forall|j: int| i <= j < providers.len() ==> (#[trigger] providers[j]).cli_name@ != name)
            ==> provider_named(providers, name, i) is None,
    decreases providers.len() - i,
{
    if i < providers.len() && providers[i].cli_name@ != name {
        a_name_stands_for_the_first_provider(providers, name, i + 1, k);
    }
}

/// The token account of a provider is the first that is listed for it.
pub proof fn a_token_account_is_the_first_listed(
    tokens: Seq<(ProviderId, u128)>,
    id: ProviderId,
    i: int,
    k: int,
)
    requires
        0 <= i,
    ensures
        i <= k < tokens.len() && tokens[k].0 == id && (forall|j: int|
            i <= j < k ==> (#[trigger] tokens[j]).0 != id) ==> token_of(tokens, id, i) == Some(
            tokens[k].1,
        ),
        (forall|j: int| i <= j < tokens.len() ==> (#[trigger] tokens[j]).0 != id) ==> token_of(
            tokens,
            id,
            i,
        ) is None,
    decreases tokens.len() - i,
{
    if i < tokens.len() && tokens[i].0 != id {
        a_token_account_is_the_first_listed(tokens, id, i + 1, k);
    }
}

/// What is done about a provider is what is done about its session, its week and its pace, for the
/// account that its snapshot is of.
pub proof fn a_provider_is_looked_after_as_a_whole(
    settings: Settings,
    provider: ProviderId,
    s: UsageView,
    token: Option<u128>,
    n: NoticeView,
)
    ensures
        provider_notices(settings, provider, s, token).contains(n) <==> session_notices(
            settings,
            provider,
            account_identity(s, token),
            s.primary,
        ).contains(n) || weekly_notices(
            settings,
            provider,
            account_identity(s, token),
            s.secondary,
        ).contains(n) || pace_notices(settings, provider, s, token).contains(n),
{
    let account = account_identity(s, token);
    let a = session_notices(settings, provider, account, s.primary);
    let b = weekly_notices(settings, provider, account, s.secondary);
    let c = pace_notices(settings, provider, s, token);
    lemma_notices_of_two(a, b, n);
    lemma_notices_of_two(a + b, c, n);
}

proof fn lemma_notices_of_two(a: Seq<NoticeView>, b: Seq<NoticeView>, n: NoticeView)
    ensures
        (a + b).contains(n) <==> a.contains(n) || b.contains(n),
{
    if a.contains(n) {
        let i = a.index_of(n);
        assert((a + b)[i] == n);
    }
    if b.contains(n) {
        let i = b.index_of(n);
        assert((a + b)[a.len() + i] == n);
    }
    if (a + b).contains(n) {
        let i = (a + b).index_of(n);
        if i < a.len() {
            assert(a[i] == n);
        } else {
            assert(b[i - a.len()] == n);
        }
    }
}

/// After a refresh every provider that is known and has no error is looked after, once and in its
/// place, with its own token account; one with an error, or that is not known, is passed over.
pub proof fn every_good_snapshot_is_looked_after(
    settings: Settings,
    providers: Seq<Provider>,
    tokens: Seq<(ProviderId, u128)>,
    cached: Seq<ProviderUsageSnapshot>,
    n: int,
    k: int,
    x: NoticeView,
)
    requires
        0 <= k < n <= cached.len(),
    ensures
        ({
            let s = cached[k]@;
            let id = provider_named(providers, s.provider_id, 0);
            s.error is None && id is Some && provider_notices(
                settings,
                id->Some_0,
                s,
                token_of(tokens, id->Some_0, 0),
            ).contains(x) ==> all_notices(settings, providers, tokens, cached, n).contains(x)
        }),
        cached[n - 1]@.error is Some ==> all_notices(settings, providers, tokens, cached, n)
            == all_notices(settings, providers, tokens, cached, n - 1),
        all_notices(settings, providers, tokens, cached, 0).len() == 0,
    decreases n,
{
    let before = all_notices(settings, providers, tokens, cached, n - 1);
    let last = cached[n - 1]@;
    if k < n - 1 {
        every_good_snapshot_is_looked_after(settings, providers, tokens, cached, n - 1, k, x);
    }
    if last.error is None && provider_named(providers, last.provider_id, 0) is Some {
        let id = provider_named(providers, last.provider_id, 0)->0;
        let own = provider_notices(settings, id, last, token_of(tokens, id, 0));
        lemma_notices_of_two(before, own, x);
    }
}

} // verus!
