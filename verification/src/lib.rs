//! Verified core of the uLedger server.
//!
//! - `util`: e-mail addresses, verification tokens, hex, JSON text, times.
//! - `config`: configuration values and how their settings are read.
//! - `auth`: roles, password hashing, sign-up and sign-in decisions.
//! - `verification`: proving ownership of an e-mail address.
//! - `ledger`: account kinds, account and commodity records.
//! - `postmark`, `email`: the messages the server sends.
//! - `htmx`: reading htmx request headers and steering htmx.
//! - `assets`: which static files are served, and as what.
//! - `api`, `responses`, `server`, `db`: how requests are answered.

pub mod api;
pub mod asset_cache;
pub mod assets;
pub mod auth;
pub mod config;
pub mod db;
pub mod email;
pub mod htmx;
pub mod ledger;
pub mod postmark;
pub mod responses;
pub mod server;
pub mod util;
pub mod verification;
