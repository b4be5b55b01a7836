//! What can go wrong with the credentials, the usage and the accounts of the tool.

use vstd::prelude::*;
use crate::claude::tool::Tool;

verus! {

#[derive(Debug)]
pub enum ProviderError {
    OAuth(String),
    OAuthExpired(String),
    OAuthRevoked(String),
    Parse(String),
    Network(String),
}

pub enum ProviderErrorView {
    OAuth(Seq<char>),
    OAuthExpired(Seq<char>),
    OAuthRevoked(Seq<char>),
    Parse(Seq<char>),
    Network(Seq<char>),
}

impl View for ProviderError {
    type V = ProviderErrorView;

    open spec fn view(&self) -> ProviderErrorView {
        match self {
            ProviderError::OAuth(s) => ProviderErrorView::OAuth(s@),
            ProviderError::OAuthExpired(s) => ProviderErrorView::OAuthExpired(s@),
            ProviderError::OAuthRevoked(s) => ProviderErrorView::OAuthRevoked(s@),
            ProviderError::Parse(s) => ProviderErrorView::Parse(s@),
            ProviderError::Network(s) => ProviderErrorView::Network(s@),
        }
    }
}

impl ProviderErrorView {
    /// What the user is told.
    pub open spec fn text(self) -> Seq<char> {
        match self {
            ProviderErrorView::OAuth(s) => s,
            ProviderErrorView::OAuthExpired(s) => s,
            ProviderErrorView::OAuthRevoked(s) => s,
            ProviderErrorView::Parse(s) => s,
            ProviderErrorView::Network(s) => s,
        }
    }
}

impl ProviderError {
    /// What the user is told.
    pub fn message(&self) -> (r: &str)
        ensures
            r@ == self@.text(),
    {
        match self {
            ProviderError::OAuth(s) => s.as_str(),
            ProviderError::OAuthExpired(s) => s.as_str(),
            ProviderError::OAuthRevoked(s) => s.as_str(),
            ProviderError::Parse(s) => s.as_str(),
            ProviderError::Network(s) => s.as_str(),
        }
    }
}

/// What can go wrong with the accounts of the tool.
#[derive(Debug)]
pub enum AccountError {
    /// A login lacks a field.
    MissingField(String),
    /// A file of the tool cannot be read.
    InvalidConfig,
    /// A file of the tool holds no object.
    ConfigNotObject,
    /// The saved logins cannot be read.
    UnreadableStore,
    /// There is no login to save.
    NoSubscriptionLogin,
    /// No saved login has the id.
    AccountNotFound,
    /// A switch failed and was undone.
    SwitchUndone(String),
    /// A switch failed and could not be undone.
    SwitchHalfway,
    /// A variable stands in the way of a subscription.
    OverrideSet(String),
    /// The tool is not installed.
    CliNotFound,
    /// The tool is not installed as an executable.
    NativeCliNeeded,
    /// The directory of sign-ins is a link.
    LinkedRoot,
    /// A sign-in ended without success.
    SignInIncomplete,
    /// A sign-in was cancelled.
    SignInCancelled,
    /// A sign-in took too long.
    SignInTimedOut,
    /// A sign-in saved no login.
    NothingSaved,
    /// The running sessions could not be counted.
    UncountedSessions,
    /// Sessions are still running.
    SessionsOpen,
    /// What the system or a path is at fault for.
    Other(String),
}

pub enum AccountErrorView {
    MissingField(Seq<char>),
    InvalidConfig,
    ConfigNotObject,
    UnreadableStore,
    NoSubscriptionLogin,
    AccountNotFound,
    SwitchUndone(Seq<char>),
    SwitchHalfway,
    OverrideSet(Seq<char>),
    CliNotFound,
    NativeCliNeeded,
    LinkedRoot,
    SignInIncomplete,
    SignInCancelled,
    SignInTimedOut,
    NothingSaved,
    UncountedSessions,
    SessionsOpen,
    Other(Seq<char>),
}

impl View for AccountError {
    type V = AccountErrorView;

    open spec fn view(&self) -> AccountErrorView {
        match self {
            AccountError::MissingField(t) => AccountErrorView::MissingField(t@),
            AccountError::InvalidConfig => AccountErrorView::InvalidConfig,
            AccountError::ConfigNotObject => AccountErrorView::ConfigNotObject,
            AccountError::UnreadableStore => AccountErrorView::UnreadableStore,
            AccountError::NoSubscriptionLogin => AccountErrorView::NoSubscriptionLogin,
            AccountError::AccountNotFound => AccountErrorView::AccountNotFound,
            AccountError::SwitchUndone(t) => AccountErrorView::SwitchUndone(t@),
            AccountError::SwitchHalfway => AccountErrorView::SwitchHalfway,
            AccountError::OverrideSet(t) => AccountErrorView::OverrideSet(t@),
            AccountError::CliNotFound => AccountErrorView::CliNotFound,
            AccountError::NativeCliNeeded => AccountErrorView::NativeCliNeeded,
            AccountError::LinkedRoot => AccountErrorView::LinkedRoot,
            AccountError::SignInIncomplete => AccountErrorView::SignInIncomplete,
            AccountError::SignInCancelled => AccountErrorView::SignInCancelled,
            AccountError::SignInTimedOut => AccountErrorView::SignInTimedOut,
            AccountError::NothingSaved => AccountErrorView::NothingSaved,
            AccountError::UncountedSessions => AccountErrorView::UncountedSessions,
            AccountError::SessionsOpen => AccountErrorView::SessionsOpen,
            AccountError::Other(t) => AccountErrorView::Other(t@),
        }
    }
}

impl AccountErrorView {
    /// What the user is told.
    pub open spec fn text(self, tool: Tool) -> Seq<char> {
        match self {
            AccountErrorView::MissingField(t) => tool.login_is_missing(t),
            AccountErrorView::InvalidConfig => tool.config_invalid(),
            AccountErrorView::ConfigNotObject => tool.config_not_object(),
            AccountErrorView::UnreadableStore => tool.store_unreadable(),
            AccountErrorView::NoSubscriptionLogin => tool.no_subscription_login(),
            AccountErrorView::AccountNotFound => tool.account_not_found(),
            AccountErrorView::SwitchUndone(t) => tool.identity_restored(t),
            AccountErrorView::SwitchHalfway => tool.identity_failed(),
            AccountErrorView::OverrideSet(t) => tool.override_set(t),
            AccountErrorView::CliNotFound => tool.cli_not_found(),
            AccountErrorView::NativeCliNeeded => tool.native_cli_needed(),
            AccountErrorView::LinkedRoot => tool.linked_root(),
            AccountErrorView::SignInIncomplete => tool.signin_incomplete(),
            AccountErrorView::SignInCancelled => tool.signin_cancelled(),
            AccountErrorView::SignInTimedOut => tool.signin_timed_out(),
            AccountErrorView::NothingSaved => tool.nothing_saved(),
            AccountErrorView::UncountedSessions => tool.uncounted_sessions(),
            AccountErrorView::SessionsOpen => tool.sessions_open(),
            AccountErrorView::Other(t) => t,
        }
    }
}

impl AccountError {
    /// What the user is told.
    pub fn message(&self, tool: &Tool) -> (r: String)
        ensures
            r@ == self@.text(*tool),
    {
        match self {
            AccountError::MissingField(t) => tool.say_login_is_missing(t.as_str()),
            AccountError::InvalidConfig => tool.say_config_invalid(),
            AccountError::ConfigNotObject => tool.say_config_not_object(),
            AccountError::UnreadableStore => tool.say_store_unreadable(),
            AccountError::NoSubscriptionLogin => tool.say_no_subscription_login(),
            AccountError::AccountNotFound => tool.say_account_not_found(),
            AccountError::SwitchUndone(t) => tool.say_identity_restored(t.as_str()),
            AccountError::SwitchHalfway => tool.say_identity_failed(),
            AccountError::OverrideSet(t) => tool.say_override_set(t.as_str()),
            AccountError::CliNotFound => tool.say_cli_not_found(),
            AccountError::NativeCliNeeded => tool.say_native_cli_needed(),
            AccountError::LinkedRoot => tool.say_linked_root(),
            AccountError::SignInIncomplete => tool.say_signin_incomplete(),
            AccountError::SignInCancelled => tool.say_signin_cancelled(),
            AccountError::SignInTimedOut => tool.say_signin_timed_out(),
            AccountError::NothingSaved => tool.say_nothing_saved(),
            AccountError::UncountedSessions => tool.say_uncounted_sessions(),
            AccountError::SessionsOpen => tool.say_sessions_open(),
            AccountError::Other(t) => t.clone(),
        }
    }
}

} // verus!
