//! Account and usage rules of a tray application that watches AI subscriptions.

pub mod claude;
pub mod codex_accounts;
pub mod commands;
pub mod json;
pub mod locale;
pub mod locale_key;
pub mod moment;
pub mod outside;
pub mod quantity;
pub mod settings;
pub mod snapshot;
pub mod sorting;
pub mod text;
pub mod tray_bridge;
pub mod tray_menu;
pub mod tray_status;
