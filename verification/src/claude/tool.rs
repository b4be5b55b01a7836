//! The command line tool whose accounts are kept, and what the user is told about them.

use vstd::prelude::*;
use vstd::string::StringExecFns;

verus! {

/// The tool: its name in sentences, and the command that starts it.
#[derive(Debug)]
pub struct Tool {
    pub name: String,
    pub command: String,
}

impl Tool {
    /// A login lacks a field.
    pub open spec fn login_is_missing(self, key: Seq<char>) -> Seq<char> {
        self.name@
            + " login is missing "@
            + key
            + ". Sign in again."@
    }

    /// A login lacks a field.
    pub fn say_login_is_missing(&self, key: &str) -> (r: String)
        ensures
            r@ == self.login_is_missing(key@),
    {
        let mut s = self.name.clone();
        s.append(" login is missing ");
        s.append(key);
        s.append(". Sign in again.");
        s
    }

    /// The configuration cannot be read.
    pub open spec fn config_invalid(self) -> Seq<char> {
        self.name@
            + " configuration is invalid JSON; it has not been changed."@
    }

    /// The configuration cannot be read.
    pub fn say_config_invalid(&self) -> (r: String)
        ensures
            r@ == self.config_invalid(),
    {
        let mut s = self.name.clone();
        s.append(" configuration is invalid JSON; it has not been changed.");
        s
    }

    /// The configuration is no object.
    pub open spec fn config_not_object(self) -> Seq<char> {
        self.name@
            + " configuration must be an object."@
    }

    /// The configuration is no object.
    pub fn say_config_not_object(&self) -> (r: String)
        ensures
            r@ == self.config_not_object(),
    {
        let mut s = self.name.clone();
        s.append(" configuration must be an object.");
        s
    }

    /// The store of logins cannot be read.
    pub open spec fn store_unreadable(self) -> Seq<char> {
        "Saved "@
            + self.name@
            + " accounts are unreadable. The existing file has been preserved."@
    }

    /// The store of logins cannot be read.
    pub fn say_store_unreadable(&self) -> (r: String)
        ensures
            r@ == self.store_unreadable(),
    {
        let mut s = "Saved ".to_owned();
        s.append(self.name.as_str());
        s.append(" accounts are unreadable. The existing file has been preserved.");
        s
    }

    /// There is no login to save.
    pub open spec fn no_subscription_login(self) -> Seq<char> {
        "No "@
            + self.name@
            + " Code subscription login found. Add an account first."@
    }

    /// There is no login to save.
    pub fn say_no_subscription_login(&self) -> (r: String)
        ensures
            r@ == self.no_subscription_login(),
    {
        let mut s = "No ".to_owned();
        s.append(self.name.as_str());
        s.append(" Code subscription login found. Add an account first.");
        s
    }

    /// No saved login has the given id.
    pub open spec fn account_not_found(self) -> Seq<char> {
        "Saved "@
            + self.name@
            + " account not found."@
    }

    /// No saved login has the given id.
    pub fn say_account_not_found(&self) -> (r: String)
        ensures
            r@ == self.account_not_found(),
    {
        let mut s = "Saved ".to_owned();
        s.append(self.name.as_str());
        s.append(" account not found.");
        s
    }

    /// A switch failed and was undone.
    pub open spec fn identity_restored(self, error: Seq<char>) -> Seq<char> {
        "Could not update "@
            + self.name@
            + " identity; the previous login was restored: "@
            + error
    }

    /// A switch failed and was undone.
    pub fn say_identity_restored(&self, error: &str) -> (r: String)
        ensures
            r@ == self.identity_restored(error@),
    {
        let mut s = "Could not update ".to_owned();
        s.append(self.name.as_str());
        s.append(" identity; the previous login was restored: ");
        s.append(error);
        s
    }

    /// A switch failed halfway.
    pub open spec fn identity_failed(self) -> Seq<char> {
        self.name@
            + " identity update failed. Both accounts remain saved; close "@
            + self.name@
            + " Code and retry switching."@
    }

    /// A switch failed halfway.
    pub fn say_identity_failed(&self) -> (r: String)
        ensures
            r@ == self.identity_failed(),
    {
        let mut s = self.name.clone();
        s.append(" identity update failed. Both accounts remain saved; close ");
        s.append(self.name.as_str());
        s.append(" Code and retry switching.");
        s
    }

    /// The name of the directory of the configuration.
    pub open spec fn directory_name(self) -> Seq<char> {
        "."@
            + self.command@
    }

    /// The name of the directory of the configuration.
    pub fn say_directory_name(&self) -> (r: String)
        ensures
            r@ == self.directory_name(),
    {
        let mut s = ".".to_owned();
        s.append(self.command.as_str());
        s
    }

    /// The name of the configuration file.
    pub open spec fn config_name(self) -> Seq<char> {
        "."@
            + self.command@
            + ".json"@
    }

    /// The name of the configuration file.
    pub fn say_config_name(&self) -> (r: String)
        ensures
            r@ == self.config_name(),
    {
        let mut s = ".".to_owned();
        s.append(self.command.as_str());
        s.append(".json");
        s
    }

    /// Credentials hold no access token.
    pub open spec fn token_missing(self) -> Seq<char> {
        self.name@
            + " OAuth access token missing. Run `"@
            + self.command@
            + "` to authenticate."@
    }

    /// Credentials hold no access token.
    pub fn say_token_missing(&self) -> (r: String)
        ensures
            r@ == self.token_missing(),
    {
        let mut s = self.name.clone();
        s.append(" OAuth access token missing. Run `");
        s.append(self.command.as_str());
        s.append("` to authenticate.");
        s
    }

    /// Credentials hold a blank access token.
    pub open spec fn token_blank(self) -> Seq<char> {
        self.name@
            + " OAuth access token is empty. Run `"@
            + self.command@
            + "` to authenticate."@
    }

    /// Credentials hold a blank access token.
    pub fn say_token_blank(&self) -> (r: String)
        ensures
            r@ == self.token_blank(),
    {
        let mut s = self.name.clone();
        s.append(" OAuth access token is empty. Run `");
        s.append(self.command.as_str());
        s.append("` to authenticate.");
        s
    }

    /// There are no credentials.
    pub open spec fn credentials_not_found(self) -> Seq<char> {
        self.name@
            + " OAuth credentials not found. Run `"@
            + self.command@
            + "` to authenticate."@
    }

    /// There are no credentials.
    pub fn say_credentials_not_found(&self) -> (r: String)
        ensures
            r@ == self.credentials_not_found(),
    {
        let mut s = self.name.clone();
        s.append(" OAuth credentials not found. Run `");
        s.append(self.command.as_str());
        s.append("` to authenticate.");
        s
    }

    /// The credentials may not be read.
    pub open spec fn consent_off(self) -> Seq<char> {
        "Reading "@
            + self.name@
            + " Code's credentials is off. Enable \"Allow reading "@
            + self.name@
            + " Code's credentials\" in Settings → Providers → "@
            + self.name@
            + " to use OAuth, or rely on Auto/CLI usage."@
    }

    /// The credentials may not be read.
    pub fn say_consent_off(&self) -> (r: String)
        ensures
            r@ == self.consent_off(),
    {
        let mut s = "Reading ".to_owned();
        s.append(self.name.as_str());
        s.append(" Code's credentials is off. Enable \"Allow reading ");
        s.append(self.name.as_str());
        s.append(" Code's credentials\" in Settings → Providers → ");
        s.append(self.name.as_str());
        s.append(" to use OAuth, or rely on Auto/CLI usage.");
        s
    }

    /// A variable stands in the way of a switch.
    pub open spec fn override_set(self, variable: Seq<char>) -> Seq<char> {
        variable
            + " overrides "@
            + self.name@
            + " subscription login. Unset it and restart Win-CodexBar before switching accounts."@
    }

    /// A variable stands in the way of a switch.
    pub fn say_override_set(&self, variable: &str) -> (r: String)
        ensures
            r@ == self.override_set(variable@),
    {
        let mut s = variable.to_owned();
        s.append(" overrides ");
        s.append(self.name.as_str());
        s.append(" subscription login. Unset it and restart Win-CodexBar before switching accounts.");
        s
    }

    /// The tool is not installed.
    pub open spec fn cli_not_found(self) -> Seq<char> {
        self.name@
            + " Code was not found. Install the "@
            + self.name@
            + " Code CLI, then try again."@
    }

    /// The tool is not installed.
    pub fn say_cli_not_found(&self) -> (r: String)
        ensures
            r@ == self.cli_not_found(),
    {
        let mut s = self.name.clone();
        s.append(" Code was not found. Install the ");
        s.append(self.name.as_str());
        s.append(" Code CLI, then try again.");
        s
    }

    /// The tool is not installed as an executable.
    pub open spec fn native_cli_needed(self) -> Seq<char> {
        "Account sign-in requires the native "@
            + self.name@
            + " Code executable. Install "@
            + self.name@
            + " Code using its native Windows installer."@
    }

    /// The tool is not installed as an executable.
    pub fn say_native_cli_needed(&self) -> (r: String)
        ensures
            r@ == self.native_cli_needed(),
    {
        let mut s = "Account sign-in requires the native ".to_owned();
        s.append(self.name.as_str());
        s.append(" Code executable. Install ");
        s.append(self.name.as_str());
        s.append(" Code using its native Windows installer.");
        s
    }

    /// The directory of sign-ins is a link.
    pub open spec fn linked_root(self) -> Seq<char> {
        "Refusing to clean a linked "@
            + self.name@
            + " sign-in root."@
    }

    /// The directory of sign-ins is a link.
    pub fn say_linked_root(&self) -> (r: String)
        ensures
            r@ == self.linked_root(),
    {
        let mut s = "Refusing to clean a linked ".to_owned();
        s.append(self.name.as_str());
        s.append(" sign-in root.");
        s
    }

    /// A sign-in ended without success.
    pub open spec fn signin_incomplete(self) -> Seq<char> {
        self.name@
            + " sign-in did not complete. Try again and finish sign-in in your browser."@
    }

    /// A sign-in ended without success.
    pub fn say_signin_incomplete(&self) -> (r: String)
        ensures
            r@ == self.signin_incomplete(),
    {
        let mut s = self.name.clone();
        s.append(" sign-in did not complete. Try again and finish sign-in in your browser.");
        s
    }

    /// A sign-in was cancelled.
    pub open spec fn signin_cancelled(self) -> Seq<char> {
        self.name@
            + " sign-in cancelled."@
    }

    /// A sign-in was cancelled.
    pub fn say_signin_cancelled(&self) -> (r: String)
        ensures
            r@ == self.signin_cancelled(),
    {
        let mut s = self.name.clone();
        s.append(" sign-in cancelled.");
        s
    }

    /// A sign-in took too long.
    pub open spec fn signin_timed_out(self) -> Seq<char> {
        self.name@
            + " sign-in timed out. Please try again."@
    }

    /// A sign-in took too long.
    pub fn say_signin_timed_out(&self) -> (r: String)
        ensures
            r@ == self.signin_timed_out(),
    {
        let mut s = self.name.clone();
        s.append(" sign-in timed out. Please try again.");
        s
    }

    /// A sign-in saved no login.
    pub open spec fn nothing_saved(self) -> Seq<char> {
        self.name@
            + " Code did not save a subscription login. Please sign in again."@
    }

    /// A sign-in saved no login.
    pub fn say_nothing_saved(&self) -> (r: String)
        ensures
            r@ == self.nothing_saved(),
    {
        let mut s = self.name.clone();
        s.append(" Code did not save a subscription login. Please sign in again.");
        s
    }

    /// The running sessions could not be counted.
    pub open spec fn uncounted_sessions(self) -> Seq<char> {
        "Could not check whether "@
            + self.name@
            + " Code is running."@
    }

    /// The running sessions could not be counted.
    pub fn say_uncounted_sessions(&self) -> (r: String)
        ensures
            r@ == self.uncounted_sessions(),
    {
        let mut s = "Could not check whether ".to_owned();
        s.append(self.name.as_str());
        s.append(" Code is running.");
        s
    }

    /// Sessions are still running.
    pub open spec fn sessions_open(self) -> Seq<char> {
        "Close your running "@
            + self.name@
            + " Code CLI sessions, then switch accounts and reopen "@
            + self.name@
            + " Code."@
    }

    /// Sessions are still running.
    pub fn say_sessions_open(&self) -> (r: String)
        ensures
            r@ == self.sessions_open(),
    {
        let mut s = "Close your running ".to_owned();
        s.append(self.name.as_str());
        s.append(" Code CLI sessions, then switch accounts and reopen ");
        s.append(self.name.as_str());
        s.append(" Code.");
        s
    }

    /// The refresh token was rejected.
    pub open spec fn refresh_rejected(self) -> Seq<char> {
        self.name@
            + " OAuth session expired and its stored refresh token was rejected by the server. Run `"@
            + self.command@
            + " login` to re-authenticate."@
    }

    /// The refresh token was rejected.
    pub fn say_refresh_rejected(&self) -> (r: String)
        ensures
            r@ == self.refresh_rejected(),
    {
        let mut s = self.name.clone();
        s.append(" OAuth session expired and its stored refresh token was rejected by the server. Run `");
        s.append(self.command.as_str());
        s.append(" login` to re-authenticate.");
        s
    }

    /// Refreshes are held back.
    pub open spec fn refresh_cooling(self) -> Seq<char> {
        self.name@
            + " OAuth token expired and token refresh is cooling down after a failed attempt. Please retry shortly, or run `"@
            + self.command@
            + " login`."@
    }

    /// Refreshes are held back.
    pub fn say_refresh_cooling(&self) -> (r: String)
        ensures
            r@ == self.refresh_cooling(),
    {
        let mut s = self.name.clone();
        s.append(" OAuth token expired and token refresh is cooling down after a failed attempt. Please retry shortly, or run `");
        s.append(self.command.as_str());
        s.append(" login`.");
        s
    }

    /// Requests are held back for some seconds.
    pub open spec fn rate_limited(self, seconds: Seq<char>) -> Seq<char> {
        self.name@
            + " OAuth usage endpoint is rate limited. Retrying in about "@
            + seconds
            + "s; credentials were preserved."@
    }

    /// Requests are held back for some seconds.
    pub fn say_rate_limited(&self, seconds: &str) -> (r: String)
        ensures
            r@ == self.rate_limited(seconds@),
    {
        let mut s = self.name.clone();
        s.append(" OAuth usage endpoint is rate limited. Retrying in about ");
        s.append(seconds);
        s.append("s; credentials were preserved.");
        s
    }

    /// The token has expired.
    pub open spec fn token_expired(self) -> Seq<char> {
        "OAuth token expired. Run `"@
            + self.command@
            + "` to refresh."@
    }

    /// The token has expired.
    pub fn say_token_expired(&self) -> (r: String)
        ensures
            r@ == self.token_expired(),
    {
        let mut s = "OAuth token expired. Run `".to_owned();
        s.append(self.command.as_str());
        s.append("` to refresh.");
        s
    }

    /// The token lacks a scope.
    pub open spec fn scope_absent(self, scopes: Seq<char>) -> Seq<char> {
        "OAuth token missing 'user:profile' scope (has: "@
            + scopes
            + "). Run `"@
            + self.command@
            + " setup-token` to regenerate."@
    }

    /// The token lacks a scope.
    pub fn say_scope_absent(&self, scopes: &str) -> (r: String)
        ensures
            r@ == self.scope_absent(scopes@),
    {
        let mut s = "OAuth token missing 'user:profile' scope (has: ".to_owned();
        s.append(scopes);
        s.append("). Run `");
        s.append(self.command.as_str());
        s.append(" setup-token` to regenerate.");
        s
    }

    /// The server does not know the token.
    pub open spec fn token_invalid(self) -> Seq<char> {
        "OAuth token invalid or expired. Run `"@
            + self.command@
            + "` to re-authenticate."@
    }

    /// The server does not know the token.
    pub fn say_token_invalid(&self) -> (r: String)
        ensures
            r@ == self.token_invalid(),
    {
        let mut s = "OAuth token invalid or expired. Run `".to_owned();
        s.append(self.command.as_str());
        s.append("` to re-authenticate.");
        s
    }

    /// The server wants another scope.
    pub open spec fn scope_refused(self) -> Seq<char> {
        "OAuth token does not meet scope requirement 'user:profile'. Run `"@
            + self.command@
            + " setup-token` to regenerate."@
    }

    /// The server wants another scope.
    pub fn say_scope_refused(&self) -> (r: String)
        ensures
            r@ == self.scope_refused(),
    {
        let mut s = "OAuth token does not meet scope requirement 'user:profile'. Run `".to_owned();
        s.append(self.command.as_str());
        s.append(" setup-token` to regenerate.");
        s
    }

    /// An access token is empty.
    pub open spec fn access_token_empty(self) -> Seq<char> {
        self.name@
            + " OAuth access token is empty."@
    }

    /// An access token is empty.
    pub fn say_access_token_empty(&self) -> (r: String)
        ensures
            r@ == self.access_token_empty(),
    {
        let mut s = self.name.clone();
        s.append(" OAuth access token is empty.");
        s
    }

    /// The id of the window of routines.
    pub open spec fn routines_id(self) -> Seq<char> {
        self.command@
            + "-routines"@
    }

    /// The id of the window of routines.
    pub fn say_routines_id(&self) -> (r: String)
        ensures
            r@ == self.routines_id(),
    {
        let mut s = self.command.clone();
        s.append("-routines");
        s
    }

    /// How a login without a known plan is called.
    pub open spec fn oauth_login(self) -> Seq<char> {
        self.name@
            + " (OAuth)"@
    }

    /// How a login without a known plan is called.
    pub fn say_oauth_login(&self) -> (r: String)
        ensures
            r@ == self.oauth_login(),
    {
        let mut s = self.name.clone();
        s.append(" (OAuth)");
        s
    }

    /// The title of messages about accounts.
    pub open spec fn accounts_title(self) -> Seq<char> {
        self.name@
            + " Code accounts"@
    }

    /// The title of messages about accounts.
    pub fn say_accounts_title(&self) -> (r: String)
        ensures
            r@ == self.accounts_title(),
    {
        let mut s = self.name.clone();
        s.append(" Code accounts");
        s
    }

    /// Another operation on the accounts is under way.
    pub open spec fn accounts_busy(self) -> Seq<char> {
        "A "@
            + self.name@
            + " account operation is already in progress."@
    }

    /// Another operation on the accounts is under way.
    pub fn say_accounts_busy(&self) -> (r: String)
        ensures
            r@ == self.accounts_busy(),
    {
        let mut s = "A ".to_owned();
        s.append(self.name.as_str());
        s.append(" account operation is already in progress.");
        s
    }

    /// An account was added.
    pub open spec fn account_added(self) -> Seq<char> {
        self.name@
            + " Code account added. Select it to switch."@
    }

    /// An account was added.
    pub fn say_account_added(&self) -> (r: String)
        ensures
            r@ == self.account_added(),
    {
        let mut s = self.name.clone();
        s.append(" Code account added. Select it to switch.");
        s
    }

    /// The current account was saved.
    pub open spec fn account_saved(self) -> Seq<char> {
        "Current "@
            + self.name@
            + " Code account saved."@
    }

    /// The current account was saved.
    pub fn say_account_saved(&self) -> (r: String)
        ensures
            r@ == self.account_saved(),
    {
        let mut s = "Current ".to_owned();
        s.append(self.name.as_str());
        s.append(" Code account saved.");
        s
    }

    /// The account was switched.
    pub open spec fn account_switched(self) -> Seq<char> {
        self.name@
            + " Code account switched. Reopen the "@
            + self.name@
            + " Code CLI to use it."@
    }

    /// The account was switched.
    pub fn say_account_switched(&self) -> (r: String)
        ensures
            r@ == self.account_switched(),
    {
        let mut s = self.name.clone();
        s.append(" Code account switched. Reopen the ");
        s.append(self.name.as_str());
        s.append(" Code CLI to use it.");
        s
    }
}

} // verus!
