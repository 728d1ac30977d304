//! A minimal HTTP server library: it resolves a listening port from an
//! optional `PORT` environment value and serves two static routes, a
//! plain-text greeting at `/` and a fixed JSON object at `/complex`.
//!
//! The library holds the decision logic: port resolution and the static
//! route table with its canned responses. A thin binary shell does the
//! actual socket I/O and hands this library plain values.

pub mod config;
pub mod json;
pub mod routes;
