//! A broker between a session-authenticated operator and an upstream
//! application API: it mints short-lived signed identity assertions,
//! exchanges them for installation-scoped access tokens, and keeps a
//! tamper-evident audit log of every HTTP exchange it takes part in.

pub mod auth;
pub mod github_app;
pub mod jwt;
pub mod request_logging;
