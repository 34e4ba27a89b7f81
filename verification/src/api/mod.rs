//! The REST interface of Bitwarden Cloud and Vaultwarden.
//!
//! The server has two groups of endpoints: `/api` for the vault and
//! `/identity` for authentication. Url construction, the bearer token and the
//! reading of replies are settled here, so that no caller writes out a path
//! prefix or an Authorization header.

pub mod auth;
pub mod client;
pub mod url;
