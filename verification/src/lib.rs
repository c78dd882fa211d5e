//! Secure credential storage for a desktop application shell: two named
//! secrets (an authentication token and an optional refresh token) kept in
//! the operating system's credential vault under one service identifier,
//! plus a pure lookup of static server configuration.
//!
//! The vault itself is an external collaborator owned by the operating
//! system. This crate verifies everything around it: how each vault outcome
//! is classified into the bridge's error taxonomy, the sequencing of the two
//! token writes, the swallow-and-succeed policy of a clear, and the
//! lifecycle laws of the documented vault semantics.

pub mod errors;
pub mod model;
pub mod server;
pub mod store;
pub mod vault;

pub use errors::{AuthError, AuthErrorCode};
pub use server::{get_server_info, BuildConfig, ServerInfo};
pub use store::{clear_auth_tokens, get_auth_token, store_auth_token};
