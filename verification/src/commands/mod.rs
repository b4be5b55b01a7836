//! What the commands of the application decide.

pub mod codex_accounts;
pub mod fetch_context;
pub mod notifications;
pub mod pricing;
pub mod providers;
