//! The accounts of the command line tool: saved logins, signing in, credentials and usage.

pub mod accounts;
pub mod command_line;
pub mod credentials_store;
pub mod errors;
pub mod login;
pub mod oauth;
pub mod tool;
