//! Colorized logging helpers: what the native logger prints for each
//! record, the browser-to-server relay (payloads, the bounded send queue and
//! the server-side formatting in the native style), HTTP request and
//! response rendering, and redaction of sensitive values.

pub mod backend;
pub mod color;
pub mod formatting;
pub mod json;
pub mod level;
pub mod redaction;
pub mod relay;
pub mod text;

pub use backend::{LogRecord, Logger, MESSAGE_TARGET, SUCCESS_TARGET};
pub use level::{Level, LevelFilter, LogFacade, is_off, parse_level_filter};
pub use relay::emitter::{
    WebLoggerConfig, WebLoggingSetup, init_web_logging, init_web_logging_with_config,
};
pub use relay::receiver::{format_relay_line, split_formatted_lines};
pub use relay::{DEFAULT_WEB_LOG_RELAY_ENDPOINT, RelayLogPayload};
