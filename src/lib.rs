//! PKCE authorization-code flow for a native client with a loopback redirect.
//!
//! The modules, leaf first: `pkce` draws verifiers and derives challenges,
//! `ports` picks the loopback port, `session` holds the attempts that wait for
//! their redirect, `tokens` decides expiry, `exchange` builds the token request
//! and reads its errors, `callback` handles the redirect, and `flow` starts an
//! attempt.
pub mod callback;
pub mod exchange;
pub mod flow;
pub mod pkce;
pub mod ports;
pub mod session;
pub mod tokens;
