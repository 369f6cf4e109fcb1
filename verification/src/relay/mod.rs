//! Browser-to-server log relay: the payload contract, the browser-side
//! queue and setup, and the server-side formatting.
//!
//! Browser emitters post a [`RelayLogPayload`] for each record to
//! [`DEFAULT_WEB_LOG_RELAY_ENDPOINT`] unless configured with another endpoint.

pub mod emitter;
pub mod receiver;

use vstd::prelude::*;

verus! {

/// Default endpoint path for browser-to-server log relay requests.
pub const DEFAULT_WEB_LOG_RELAY_ENDPOINT: &'static str = "/_leptos/web-log";

/// A browser-to-server log relay payload.
///
/// The endpoint path is not part of the payload, so applications can choose
/// or configure their own relay route.
#[derive(Clone, Debug, PartialEq, Eq)]
pub struct RelayLogPayload {
    /// Log level name, such as `"error"`, `"warn"`, `"info"`, `"debug"` or `"trace"`.
    pub level: String,
    /// Rendered log message.
    pub message: String,
    /// Optional log target or module path.
    pub target: Option<String>,
    /// Optional source file path reported by the caller.
    pub file: Option<String>,
    /// Optional source line number reported by the caller.
    pub line: Option<u32>,
}

} // verus!
