//! Adaptive TLS-backend selection for outbound HTTP clients.
//!
//! The library decides, per target URL, which TLS implementation and which
//! certificate policy a client should use, remembers what worked, and derives
//! the upstream proxy settings. Building clients and sending probes is left to
//! the caller, which feeds each probe's outcome back into the state machine.
pub mod tls;
pub mod cache;
pub mod fallback;
pub mod proxy;
pub mod client;
