use goggin_rs_logger::relay::receiver::{WebLogLevel, extract_after_src, format_non_verbose};
use goggin_rs_logger::{
    DEFAULT_WEB_LOG_RELAY_ENDPOINT, LevelFilter, LogFacade, RelayLogPayload, WebLoggerConfig,
    WebLoggingSetup, format_relay_line, init_web_logging, init_web_logging_with_config,
    split_formatted_lines,
};

#[test]
fn leptos_public_api_is_exported_from_crate_root() {
    let _: &'static str = DEFAULT_WEB_LOG_RELAY_ENDPOINT;
    let _: fn(&mut LogFacade, &'static str, Option<&'static str>) -> WebLoggingSetup =
        init_web_logging;
    let _: fn(&mut LogFacade, WebLoggerConfig) -> WebLoggingSetup = init_web_logging_with_config;
}

#[test]
fn config_new_uses_default_endpoint() {
    let config = WebLoggerConfig::new("debug", None);

    assert_eq!(config.endpoint, DEFAULT_WEB_LOG_RELAY_ENDPOINT);
}

#[test]
fn config_with_endpoint_overrides_endpoint() {
    let config = WebLoggerConfig {
        configured_level: "info",
        level_filter: LevelFilter::Info,
        endpoint: DEFAULT_WEB_LOG_RELAY_ENDPOINT,
    };

    let config = config.with_endpoint("/custom/web-log");

    assert_eq!(config.configured_level, "info");
    assert_eq!(config.level_filter, LevelFilter::Info);
    assert_eq!(config.endpoint, "/custom/web-log");
}

#[test]
fn init_with_config_stores_endpoint_before_registration() {
    let config = WebLoggerConfig {
        configured_level: "off",
        level_filter: LevelFilter::Off,
        endpoint: "/custom/web-log",
    };

    let setup = init_web_logging_with_config(&mut LogFacade::new(), config);

    assert!(!setup.install_relay_logger);
    assert_eq!(setup.config.endpoint, "/custom/web-log");
}

#[test]
fn parse_level_defaults_to_info() {
    assert_eq!(WebLogLevel::parse("wat"), WebLogLevel::Info);
    assert_eq!(WebLogLevel::parse("warn"), WebLogLevel::Warn);
}

#[test]
fn receiver_extract_after_src_returns_relative_suffix() {
    assert_eq!(
        extract_after_src("/tmp/project/src/main.rs"),
        "main.rs".to_string()
    );
}

#[test]
fn non_verbose_error_uses_api_style_prefix() {
    let formatted = format_non_verbose(WebLogLevel::Error, "boom");
    assert!(formatted.contains("[ERROR] boom"));
    assert!(formatted.contains("\u{1b}[31m"));
}

#[test]
fn verbose_debug_uses_banner_format() {
    let payload = RelayLogPayload {
        level: "debug".to_string(),
        message: "test log".to_string(),
        target: Some("app::module".to_string()),
        file: Some("/tmp/project/src/app/mod.rs".to_string()),
        line: Some(42),
    };

    let formatted = format_relay_line(&payload, true);
    assert!(formatted.contains("###### Debug ######"));
    assert!(formatted.contains("File: app/mod.rs"));
    assert!(formatted.contains("Line Number: 42"));
    assert!(formatted.contains("test log"));
}

#[test]
fn split_formatted_lines_preserves_blank_lines() {
    let formatted = "\n\x1b[31m###### Error ######\x1b[0m\n\n\x1b[31mboom\x1b[0m\n";
    let lines = split_formatted_lines(formatted);

    assert_eq!(lines.len(), 5);
    assert_eq!(lines[0], "");
    assert!(lines[1].contains("###### Error ######"));
    assert_eq!(lines[2], "");
    assert!(lines[3].contains("boom"));
    assert_eq!(lines[4], "");
}

#[test]
fn semantic_success_uses_api_style_formatting() {
    let payload = RelayLogPayload {
        level: "info".to_string(),
        message: "Database connection established".to_string(),
        target: Some("goggin_rs_logger::success".to_string()),
        file: Some("/tmp/project/src/app/mod.rs".to_string()),
        line: Some(42),
    };

    let verbose = format_relay_line(&payload, true);
    assert!(verbose.contains("###### Database connection established ######"));
    assert!(verbose.contains("\u{1b}[32m"));

    let non_verbose = format_relay_line(&payload, false);
    assert!(non_verbose.contains("Database connection established"));
    assert!(non_verbose.contains("\u{1b}[32m"));
}
