//! HTTP fetch and request-shaping layer for a desktop reader application.
//!
//! The library resolves a host-adaptive header policy for each destination,
//! keeps one shared HTTP client per process, executes simple content fetches
//! and fully parameterized requests, and classifies every failure into a
//! small closed taxonomy.

pub mod client;
pub mod errors;
pub mod fetch;
pub mod headers;
pub mod policy;
pub mod probe;
pub mod request;
pub mod text;
pub mod transport;
