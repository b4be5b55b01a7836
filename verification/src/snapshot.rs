//! Providers, and what a refresh found out about the usage of one.

use vstd::prelude::*;
use crate::quantity::{Quantity, ONE};
use crate::text::{copy_text, seen};

verus! {

/// The providers that some rule singles out; `Other` numbers the rest.
#[derive(Clone, Copy, Debug, PartialEq, Eq, Structural)]
pub enum ProviderId {
    Claude,
    Codex,
    Copilot,
    Factory,
    Grok,
    Kimi,
    MiniMax,
    Alibaba,
    OpenCodeGo,
    Wayfinder,
    Other(u16),
}

/// A provider with its names and what it can do.
#[derive(Debug)]
pub struct Provider {
    pub id: ProviderId,
    pub cli_name: String,
    pub display_name: String,
    pub cookie_domain: Option<String>,
    pub supports_cli: bool,
}

/// A provider as the menus list it.
#[derive(Debug)]
pub struct ProviderCatalogEntry {
    pub id: String,
    pub display_name: String,
    pub cookie_domain: Option<String>,
}

/// What the outcome of a fetch says about a provider.
#[derive(Clone, Copy, Debug, PartialEq, Eq, Structural)]
pub enum ProviderStateKind {
    Ready,
    Unknown,
    Other(u16),
}

/// One quota window of a provider.
#[derive(Debug)]
pub struct RateWindowSnapshot {
    pub used_percent: Quantity,
    pub remaining_percent: Quantity,
    pub window_minutes: Option<u32>,
    pub resets_at: Option<String>,
    pub reset_description: Option<String>,
    pub is_exhausted: bool,
    pub is_informational: bool,
    pub reserve_percent: Option<Quantity>,
    pub reserve_description: Option<String>,
    pub reserve_will_last_to_reset: bool,
    pub reserve_eta_seconds: Option<i64>,
}

#[verifier::ext_equal]
pub struct WindowView {
    pub used_percent: Quantity,
    pub remaining_percent: Quantity,
    pub window_minutes: Option<u32>,
    pub resets_at: Option<Seq<char>>,
    pub reset_description: Option<Seq<char>>,
    pub is_exhausted: bool,
    pub is_informational: bool,
    pub reserve_percent: Option<Quantity>,
    pub reserve_description: Option<Seq<char>>,
    pub reserve_will_last_to_reset: bool,
    pub reserve_eta_seconds: Option<i64>,
}

impl View for RateWindowSnapshot {
    type V = WindowView;

    open spec fn view(&self) -> WindowView {
        WindowView {
            used_percent: self.used_percent,
            remaining_percent: self.remaining_percent,
            window_minutes: self.window_minutes,
            resets_at: seen(self.resets_at),
            reset_description: seen(self.reset_description),
            is_exhausted: self.is_exhausted,
            is_informational: self.is_informational,
            reserve_percent: self.reserve_percent,
            reserve_description: seen(self.reserve_description),
            reserve_will_last_to_reset: self.reserve_will_last_to_reset,
            reserve_eta_seconds: self.reserve_eta_seconds,
        }
    }
}

impl Clone for RateWindowSnapshot {
    fn clone(&self) -> (r: Self)
        ensures
            r@ == self@,
    {
        RateWindowSnapshot {
            used_percent: self.used_percent,
            remaining_percent: self.remaining_percent,
            window_minutes: self.window_minutes,
            resets_at: copy_text(&self.resets_at),
            reset_description: copy_text(&self.reset_description),
            is_exhausted: self.is_exhausted,
            is_informational: self.is_informational,
            reserve_percent: self.reserve_percent,
            reserve_description: copy_text(&self.reserve_description),
            reserve_will_last_to_reset: self.reserve_will_last_to_reset,
            reserve_eta_seconds: self.reserve_eta_seconds,
        }
    }
}

/// A window of which nothing is used and nothing else is known.
pub open spec fn unused_window() -> WindowView {
    WindowView {
        used_percent: Quantity { scaled: 0 },
        remaining_percent: Quantity { scaled: (100 * ONE) as i128 },
        window_minutes: None,
        resets_at: None,
        reset_description: None,
        is_exhausted: false,
        is_informational: false,
        reserve_percent: None,
        reserve_description: None,
        reserve_will_last_to_reset: false,
        reserve_eta_seconds: None,
    }
}

impl RateWindowSnapshot {
    /// A window of which nothing is used and nothing else is known.
    pub fn unused() -> (r: Self)
        ensures
            r@ == unused_window(),
    {
        RateWindowSnapshot {
            used_percent: Quantity { scaled: 0 },
            remaining_percent: Quantity { scaled: 100 * ONE },
            window_minutes: None,
            resets_at: None,
            reset_description: None,
            is_exhausted: false,
            is_informational: false,
            reserve_percent: None,
            reserve_description: None,
            reserve_will_last_to_reset: false,
            reserve_eta_seconds: None,
        }
    }
}

/// The view of a window that may be missing.
pub open spec fn window_seen(o: Option<RateWindowSnapshot>) -> Option<WindowView> {
    match o {
        Some(w) => Some(w@),
        None => None,
    }
}

/// Copies a window that may be missing.
pub fn copy_window(o: &Option<RateWindowSnapshot>) -> (r: Option<RateWindowSnapshot>)
    ensures
        window_seen(r) == window_seen(*o),
{
    match o {
        Some(w) => Some(w.clone()),
        None => None,
    }
}

/// What a provider charges, as it is shown.
#[derive(Debug)]
pub struct CostSnapshot {
    pub used: Quantity,
    pub limit: Option<Quantity>,
    pub currency_code: String,
    pub period: String,
    pub formatted_used: String,
    pub formatted_limit: Option<String>,
}

#[verifier::ext_equal]
pub struct CostView {
    pub used: Quantity,
    pub limit: Option<Quantity>,
    pub currency_code: Seq<char>,
    pub period: Seq<char>,
    pub formatted_used: Seq<char>,
    pub formatted_limit: Option<Seq<char>>,
}

impl View for CostSnapshot {
    type V = CostView;

    open spec fn view(&self) -> CostView {
        CostView {
            used: self.used,
            limit: self.limit,
            currency_code: self.currency_code@,
            period: self.period@,
            formatted_used: self.formatted_used@,
            formatted_limit: seen(self.formatted_limit),
        }
    }
}

impl Clone for CostSnapshot {
    fn clone(&self) -> (r: Self)
        ensures
            r@ == self@,
    {
        CostSnapshot {
            used: self.used,
            limit: self.limit,
            currency_code: self.currency_code.clone(),
            period: self.period.clone(),
            formatted_used: self.formatted_used.clone(),
            formatted_limit: copy_text(&self.formatted_limit),
        }
    }
}

/// What the last refresh found out about a provider.
#[derive(Debug)]
pub struct ProviderUsageSnapshot {
    pub provider_id: String,
    pub display_name: String,
    pub primary: RateWindowSnapshot,
    pub secondary: Option<RateWindowSnapshot>,
    pub model_specific: Option<RateWindowSnapshot>,
    pub tertiary: Option<RateWindowSnapshot>,
    pub cost: Option<CostSnapshot>,
    pub plan_name: Option<String>,
    pub account_email: Option<String>,
    pub account_organization: Option<String>,
    pub source_label: String,
    pub updated_at: String,
    pub error: Option<String>,
    pub error_state: ProviderStateKind,
    pub fetch_duration_ms: Option<u128>,
}

#[verifier::ext_equal]
pub struct UsageView {
    pub provider_id: Seq<char>,
    pub display_name: Seq<char>,
    pub primary: WindowView,
    pub secondary: Option<WindowView>,
    pub model_specific: Option<WindowView>,
    pub tertiary: Option<WindowView>,
    pub cost: Option<CostView>,
    pub plan_name: Option<Seq<char>>,
    pub account_email: Option<Seq<char>>,
    pub account_organization: Option<Seq<char>>,
    pub source_label: Seq<char>,
    pub updated_at: Seq<char>,
    pub error: Option<Seq<char>>,
    pub error_state: ProviderStateKind,
    pub fetch_duration_ms: Option<u128>,
}

/// The view of a cost that may be missing.
pub open spec fn cost_seen(o: Option<CostSnapshot>) -> Option<CostView> {
    match o {
        Some(c) => Some(c@),
        None => None,
    }
}

impl View for ProviderUsageSnapshot {
    type V = UsageView;

    open spec fn view(&self) -> UsageView {
        UsageView {
            provider_id: self.provider_id@,
            display_name: self.display_name@,
            primary: self.primary@,
            secondary: window_seen(self.secondary),
            model_specific: window_seen(self.model_specific),
            tertiary: window_seen(self.tertiary),
            cost: cost_seen(self.cost),
            plan_name: seen(self.plan_name),
            account_email: seen(self.account_email),
            account_organization: seen(self.account_organization),
            source_label: self.source_label@,
            updated_at: self.updated_at@,
            error: seen(self.error),
            error_state: self.error_state,
            fetch_duration_ms: self.fetch_duration_ms,
        }
    }
}

impl Clone for ProviderUsageSnapshot {
    fn clone(&self) -> (r: Self)
        ensures
            r@ == self@,
    {
        let cost = match &self.cost {
            Some(c) => Some(c.clone()),
            None => None,
        };
        ProviderUsageSnapshot {
            provider_id: self.provider_id.clone(),
            display_name: self.display_name.clone(),
            primary: self.primary.clone(),
            secondary: copy_window(&self.secondary),
            model_specific: copy_window(&self.model_specific),
            tertiary: copy_window(&self.tertiary),
            cost,
            plan_name: copy_text(&self.plan_name),
            account_email: copy_text(&self.account_email),
            account_organization: copy_text(&self.account_organization),
            source_label: self.source_label.clone(),
            updated_at: self.updated_at.clone(),
            error: copy_text(&self.error),
            error_state: self.error_state,
            fetch_duration_ms: self.fetch_duration_ms,
        }
    }
}

/// The views of snapshots.
pub open spec fn usages(v: Seq<ProviderUsageSnapshot>) -> Seq<UsageView> {
    v.map_values(|s: ProviderUsageSnapshot| s@)
}

/// The snapshot of a provider of which only an error is known.
pub open spec fn failed_usage(
    provider: Provider,
    message: Seq<char>,
    error_state: ProviderStateKind,
    updated_at: Seq<char>,
) -> UsageView {
    UsageView {
        provider_id: provider.cli_name@,
        display_name: provider.display_name@,
        primary: unused_window(),
        secondary: None,
        model_specific: None,
        tertiary: None,
        cost: None,
        plan_name: None,
        account_email: None,
        account_organization: None,
        source_label: Seq::empty(),
        updated_at,
        error: Some(message),
        error_state,
        fetch_duration_ms: None,
    }
}

impl ProviderUsageSnapshot {
    /// The snapshot of a provider of which only an error is known.
    pub fn from_error(
        provider: &Provider,
        message: String,
        error_state: ProviderStateKind,
        updated_at: String,
    ) -> (r: Self)
        ensures
            r@ == failed_usage(*provider, message@, error_state, updated_at@),
    {
        ProviderUsageSnapshot {
            provider_id: provider.cli_name.clone(),
            display_name: provider.display_name.clone(),
            primary: RateWindowSnapshot::unused(),
            secondary: None,
            model_specific: None,
            tertiary: None,
            cost: None,
            plan_name: None,
            account_email: None,
            account_organization: None,
            source_label: String::new(),
            updated_at,
            error: Some(message),
            error_state,
            fetch_duration_ms: None,
        }
    }
}

/// Of a provider whose fetch failed, its name, the failure and the time of it are known; no share, no
/// account and no window is made up.
pub proof fn a_failure_is_shown_without_usage(
    provider: Provider,
    message: Seq<char>,
    state: ProviderStateKind,
    at: Seq<char>,
)
    ensures
        ({
            let s = failed_usage(provider, message, state, at);
            &&& s.provider_id == provider.cli_name@
            &&& s.display_name == provider.display_name@
            &&& s.error == Some(message)
            &&& s.error_state == state
            &&& s.updated_at == at
            &&& s.primary.used_percent.scaled == 0
            &&& s.primary.remaining_percent.scaled == 100 * 0x1_0000_0000_0000_0000
            &&& !s.primary.is_exhausted && !s.primary.is_informational
            &&& s.primary.resets_at is None
            &&& s.secondary is None && s.tertiary is None && s.model_specific is None
            &&& s.cost is None && s.plan_name is None
            &&& s.account_email is None && s.account_organization is None
            &&& s.fetch_duration_ms is None
        }),
{
}

} // verus!
