//! A small users API: configuration loading, the user record codec and the
//! decisions of the HTTP route handlers, verified with Verus.
pub mod codec;
pub mod config;
pub mod handlers;
