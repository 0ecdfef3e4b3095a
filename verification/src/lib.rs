//! Authentication and session core for a multi-tenant activity-tracking API.
//!
//! The crate covers credential verification, issuance and rotation of paired
//! access/refresh tokens, a token ledger with blacklisting, the per-request
//! session state machine, and the OAuth bridge that maps third-party
//! identities onto local users. Persistence and HTTP transport are external
//! collaborators; the decisions they act on are made and verified here.

pub mod errors;
pub mod util;
pub mod credentials;
pub mod claims;
pub mod ledger;
pub mod session;
pub mod users;
pub mod auth;
pub mod oauth;
pub mod cookies;
pub mod config;
pub mod activity;
