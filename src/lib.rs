//! Request gating for a credential-based web API: signed bearer tokens,
//! header-based authentication, and per-key cooldown rate limiters.
//!
//! Everything here is a pure decision over plain values; the web server that
//! owns the sockets, the clock and the locks lives outside this library.

pub mod cooldown;
pub mod token;
pub mod auth;
pub mod limit;
pub mod models;
