//! Codex accounts: who owns them, where they live, what is left of their quotas.

pub mod account_manager;
pub mod api;
pub mod codex_desktop;
pub mod fetch_lanes;
pub mod login_runner;
pub mod models;
