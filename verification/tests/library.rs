use axum::http::{HeaderMap, HeaderValue};
use goggin_rs_logger::formatting::{
    extract_after_src, get_hashtags, log_array, log_compact_http, log_debug, log_error, log_h1,
    log_h2, log_headers, log_json, log_request, log_response,
};
use goggin_rs_logger::json::JsonValue;
use goggin_rs_logger::redaction::{is_sensitive_header, is_sensitive_json_key, parse_redacted_json};
use goggin_rs_logger::relay::emitter::{MAX_RELAY_QUEUE_LEN, RelayQueue};
use goggin_rs_logger::relay::receiver::WebLogLevel;
use goggin_rs_logger::{
    Level, LevelFilter, LogFacade, LogRecord, Logger, RelayLogPayload, SUCCESS_TARGET, WebLoggerConfig,
    format_relay_line, init_web_logging, is_off, parse_level_filter, split_formatted_lines,
};

fn record(level: Level, target: &str, message: &str, file: Option<&str>, line: Option<u32>) -> LogRecord {
    LogRecord {
        level,
        target: target.to_string(),
        message: message.to_string(),
        file: file.map(|f| f.to_string()),
        line,
    }
}

fn payload(level: &str, message: &str) -> RelayLogPayload {
    RelayLogPayload {
        level: level.to_string(),
        message: message.to_string(),
        target: None,
        file: None,
        line: None,
    }
}

#[test]
fn relay_prints_records_like_the_native_logger() {
    for verbose in [false, true] {
        let logger = Logger { verbose, max_level: LevelFilter::Trace };
        for level in [Level::Error, Level::Warn, Level::Info, Level::Debug, Level::Trace] {
            let rec = record(level, "app::module", "boom", Some("/tmp/project/src/app/mod.rs"), Some(42));
            let native = logger.log(&rec).expect("record should print");
            let relayed = format_relay_line(&RelayLogPayload::from_record(&rec), verbose);
            assert_eq!(native, relayed);
        }
    }
}

#[test]
fn verbose_success_banner_differs_between_relay_and_native() {
    let logger = Logger { verbose: true, max_level: LevelFilter::Info };
    let rec = record(Level::Info, SUCCESS_TARGET, "ok", None, None);
    let native = logger.log(&rec).expect("record should print");
    let relayed = format_relay_line(&RelayLogPayload::from_record(&rec), true);
    assert_eq!(native, "\u{1b}[32m\n###### ok ######\n\u{1b}[0m");
    assert_eq!(relayed, "\n\u{1b}[32m###### ok ######\u{1b}[0m\n");
}

#[test]
fn native_compact_error_line_is_red_and_tagged() {
    let logger = Logger { verbose: false, max_level: LevelFilter::Info };
    let rec = record(Level::Error, "app", "boom", None, None);
    assert_eq!(logger.log(&rec).unwrap(), "\u{1b}[31m[ERROR] boom\u{1b}[0m");
}

#[test]
fn native_verbose_error_block_shows_file_and_line() {
    let logger = Logger { verbose: true, max_level: LevelFilter::Info };
    let rec = record(Level::Error, "app", "boom", Some("/x/src/main.rs"), Some(7));
    assert_eq!(
        logger.log(&rec).unwrap(),
        "\n\u{1b}[31m###### Error ######\u{1b}[0m\n\u{1b}[31mFile: main.rs\u{1b}[0m\n\u{1b}[31mLine Number: 7\u{1b}[0m\n\n\u{1b}[31mboom\u{1b}[0m"
    );
}

#[test]
fn native_skips_records_from_registry_sources() {
    let logger = Logger { verbose: true, max_level: LevelFilter::Info };
    let rec = record(
        Level::Warn,
        "dep",
        "noise",
        Some("/home/u/.cargo/registry/src/index.crates.io-6f17/dep/src/lib.rs"),
        Some(1),
    );
    assert!(logger.log(&rec).is_none());
}

#[test]
fn status_lines_match_semantic_records() {
    for verbose in [false, true] {
        let logger = Logger { verbose, max_level: LevelFilter::Info };
        let line = logger.log_success("ready", true).unwrap();
        let rec = record(Level::Info, SUCCESS_TARGET, "ready", None, None);
        assert_eq!(Some(line), logger.log(&rec));
    }
    let logger = Logger { verbose: false, max_level: LevelFilter::Info };
    assert!(logger.log_message("ready", false).is_none());
    assert_eq!(logger.log_message("ready", true).unwrap(), "\u{1b}[34mready\u{1b}[0m");
}

#[test]
fn setup_from_env_defaults_and_verbose_words() {
    let logger = Logger::setup_logging_from_env(&mut LogFacade::new(), None, None);
    assert_eq!(logger.max_level, LevelFilter::Info);
    assert!(logger.is_verbose());
    assert!(!Logger::setup_logging_from_env(&mut LogFacade::new(), Some("debug"), Some(" OFF ")).is_verbose());
    assert!(!Logger::setup_logging_from_env(&mut LogFacade::new(), Some("debug"), Some("0")).is_verbose());
    assert!(Logger::setup_logging_from_env(&mut LogFacade::new(), Some("debug"), Some("yes")).is_verbose());
    assert!(Logger::setup_logging_from_env(&mut LogFacade::new(), Some("debug"), Some("maybe")).is_verbose());
    assert_eq!(Logger::setup_logging(&mut LogFacade::new(), "warn", false).max_level, LevelFilter::Warn);
}

#[test]
fn level_filters_parse_case_insensitively_with_info_fallback() {
    assert_eq!(parse_level_filter("DEBUG"), LevelFilter::Debug);
    assert_eq!(parse_level_filter("Off"), LevelFilter::Off);
    assert_eq!(parse_level_filter("trace"), LevelFilter::Trace);
    assert_eq!(parse_level_filter("bogus"), LevelFilter::Info);
    assert!(is_off(LevelFilter::Off));
    assert!(!is_off(LevelFilter::Error));
}

#[test]
fn build_time_web_level_takes_precedence() {
    let config = WebLoggerConfig::new("debug", Some("trace"));
    assert_eq!(config.configured_level, "trace");
    assert_eq!(config.level_filter, LevelFilter::Trace);
    let setup = init_web_logging(&mut LogFacade::new(), "info", None);
    assert!(setup.install_relay_logger);
    assert_eq!(setup.config.level_filter, LevelFilter::Info);
}

#[test]
fn payload_from_record_uses_lower_case_level() {
    let rec = record(Level::Warn, "app", "careful", Some("src/a.rs"), Some(3));
    let p = RelayLogPayload::from_record(&rec);
    assert_eq!(p.level, "warn");
    assert_eq!(p.message, "careful");
    assert_eq!(p.target.as_deref(), Some("app"));
    assert_eq!(p.file.as_deref(), Some("src/a.rs"));
    assert_eq!(p.line, Some(3));
}

#[test]
fn web_level_parse_trims_and_ignores_case() {
    assert_eq!(WebLogLevel::parse("  WARNING \t"), WebLogLevel::Warn);
    assert_eq!(WebLogLevel::parse("Error"), WebLogLevel::Error);
    assert_eq!(WebLogLevel::parse("trace"), WebLogLevel::Trace);
    assert_eq!(WebLogLevel::parse("debug"), WebLogLevel::Debug);
    assert_eq!(WebLogLevel::parse(""), WebLogLevel::Info);
}

#[test]
fn relay_trims_trailing_whitespace_and_falls_back_to_target() {
    let mut p = payload("warn", "careful  \n");
    p.target = Some("app::net".to_string());
    p.file = Some("lib.rs".to_string());
    assert_eq!(
        format_relay_line(&p, true),
        "\n\u{1b}[35mFile: lib.rs\u{1b}[0m\n\u{1b}[35mLine Number: \u{1b}[0m\ncareful"
    );
    p.file = Some("/tmp/src/".to_string());
    assert!(format_relay_line(&p, true).contains("File: app::net"));
    assert_eq!(format_relay_line(&payload("info", "plain"), false), "plain");
}

#[test]
fn split_then_join_gives_back_the_text() {
    for text in ["", "one", "a\nb", "\n\n", "x\n"] {
        let lines = split_formatted_lines(text);
        assert_eq!(lines.join("\n"), text);
        assert!(lines.iter().all(|l| !l.contains('\n')));
    }
    assert_eq!(split_formatted_lines("").len(), 1);
}

#[test]
fn relay_queue_drops_oldest_when_full() {
    let mut queue = RelayQueue::new();
    assert!(queue.enqueue(payload("info", "0")));
    for i in 1..(MAX_RELAY_QUEUE_LEN + 5) {
        assert!(!queue.enqueue(payload("info", &i.to_string())));
    }
    assert_eq!(queue.len(), MAX_RELAY_QUEUE_LEN);
    assert!(queue.is_sending());
    assert_eq!(queue.next_to_send().unwrap().message, "5");
    assert_eq!(queue.next_to_send().unwrap().message, "6");
}

#[test]
fn relay_queue_sender_stops_when_drained() {
    let mut queue = RelayQueue::new();
    assert!(!queue.is_sending());
    assert!(queue.enqueue(payload("info", "a")));
    assert!(!queue.enqueue(payload("info", "b")));
    assert_eq!(queue.next_to_send().unwrap().message, "a");
    assert_eq!(queue.next_to_send().unwrap().message, "b");
    assert!(queue.is_sending());
    assert!(queue.next_to_send().is_none());
    assert!(!queue.is_sending());
    assert!(queue.enqueue(payload("info", "c")));
}

#[test]
fn sensitivity_checks_ignore_case_and_match_substrings() {
    assert!(is_sensitive_json_key("API_KEY"));
    assert!(is_sensitive_json_key("userSessionToken"));
    assert!(!is_sensitive_json_key("name"));
    assert!(is_sensitive_header("Set-Cookie"));
    assert!(!is_sensitive_header("Content-Type"));
}

#[test]
fn parse_redacted_json_handles_empty_and_nested_arrays() {
    assert!(parse_redacted_json(b"").is_none());
    let value = parse_redacted_json(br#"[[{"jwt":"x","n":1}]]"#).unwrap();
    let inner = match &value {
        JsonValue::Array(outer) => match &outer[0] {
            JsonValue::Array(items) => &items[0],
            _ => panic!("expected an array"),
        },
        _ => panic!("expected an array"),
    };
    match inner {
        JsonValue::Object(entries) => {
            assert_eq!(entries[0], ("jwt".to_string(), JsonValue::String("(hidden)".to_string())));
            assert_eq!(entries[1], ("n".to_string(), JsonValue::Number("1".to_string())));
        }
        _ => panic!("expected an object"),
    }
}

#[test]
fn json_printing_matches_expected_layout() {
    let value = JsonValue::Object(vec![
        ("name".to_string(), JsonValue::String("Taylor".to_string())),
        ("age".to_string(), JsonValue::Number("3".to_string())),
        ("tags".to_string(), JsonValue::Array(vec![])),
    ]);
    assert_eq!(
        log_json(&value, 0),
        "{\n  \u{1b}[36mname\u{1b}[0m: \u{1b}[32m\"Taylor\"\u{1b}[0m,\n  \u{1b}[36mage\u{1b}[0m: \u{1b}[35m3\u{1b}[0m,\n  \u{1b}[36mtags\u{1b}[0m: [],\n}\n"
    );
    assert_eq!(log_array(&vec![], 0), "[],\n");
    assert_eq!(
        log_array(&vec![JsonValue::Null], 0),
        "[\n  {\n  }\n]\n"
    );
}

#[test]
fn headings_and_hashtags() {
    assert_eq!(get_hashtags(-3), "");
    assert_eq!(log_h1("Request"), "\u{1b}[35m\n###### Request ######\n\u{1b}[0m\n");
    assert_eq!(extract_after_src(Some("/a/src/b/src/c.rs")), "b/src/c.rs");
}

#[test]
fn headers_are_printed_with_sensitive_values_hidden() {
    let mut headers = HeaderMap::new();
    headers.insert("authorization", HeaderValue::from_static("Bearer abc"));
    headers.insert("x-request-id", HeaderValue::from_static("123"));
    headers.insert("x-raw", HeaderValue::from_bytes(&[0xff]).unwrap());
    assert_eq!(
        log_headers(&headers),
        "\u{1b}[36mauthorization: \u{1b}[0m(hidden)\n\u{1b}[36mx-request-id: \u{1b}[0m123\n\u{1b}[36mx-raw: \u{1b}[0m<non-utf8>\n"
    );
}

#[test]
fn http_lines_show_uuid_status_and_duration() {
    assert_eq!(
        log_compact_http(42, "GET", "/health", 404, 12),
        "\u{1b}[36m[00000000-0000-0000-0000-00000000002a] \u{1b}[0m\u{1b}[34mGET /health -> \u{1b}[0m\u{1b}[33m404 Not Found\u{1b}[0m\u{1b}[34m (12 ms)\u{1b}[0m\n"
    );
    let response = log_response(1, 200, 5, None);
    assert!(response.contains("\u{1b}[32m200 OK\u{1b}[0m"));
    assert!(response.contains("5 ms"));
    assert!(response.contains("00000000-0000-0000-0000-000000000001"));
}

#[test]
fn error_and_debug_blocks_use_their_colors() {
    let rec = record(Level::Debug, "app", "x", Some("/p/src/lib.rs"), None);
    assert_eq!(
        log_debug(&rec),
        "\n\u{1b}[33m###### Debug ######\u{1b}[0m\n\u{1b}[33mFile: lib.rs\u{1b}[0m\n\u{1b}[33mLine Number: \u{1b}[0m\n\n\u{1b}[33mx\u{1b}[0m"
    );
    let rec = record(Level::Error, "app", "y", None, Some(0));
    assert_eq!(
        log_error(&rec),
        "\n\u{1b}[31m###### Error ######\u{1b}[0m\n\u{1b}[31mFile: \u{1b}[0m\n\u{1b}[31mLine Number: 0\u{1b}[0m\n\n\u{1b}[31my\u{1b}[0m"
    );
}

#[test]
fn request_log_lists_headers_and_body() {
    let mut headers = HeaderMap::new();
    headers.insert("cookie", HeaderValue::from_static("sid=1"));
    let body = parse_redacted_json(br#"{"token":"t","n":null}"#).unwrap();
    let text = log_request(255, "POST", "/login", &headers, Some(&body));
    let expected = format!(
        "{}\u{1b}[36mRequest ID: \u{1b}[0m00000000-0000-0000-0000-0000000000ff\n\n\u{1b}[36mPOST \u{1b}[0m/login\n{}\u{1b}[36mcookie: \u{1b}[0m(hidden)\n{}{{\n  \u{1b}[36mn\u{1b}[0m: \u{1b}[35mnull\u{1b}[0m,\n  \u{1b}[36mtoken\u{1b}[0m: \u{1b}[32m\"(hidden)\"\u{1b}[0m,\n}}\n",
        log_h1("Request"),
        log_h2("Headers"),
        log_h2("Body")
    );
    assert_eq!(text, expected);
}

#[test]
fn relay_queue_interleaved_run_sends_each_payload_once_in_order() {
    let mut queue = RelayQueue::new();
    let mut sent: Vec<String> = Vec::new();
    assert!(queue.enqueue(payload("info", "p1")));
    assert!(!queue.enqueue(payload("info", "p2")));
    sent.push(queue.next_to_send().unwrap().message);
    assert!(!queue.enqueue(payload("info", "p3")));
    sent.push(queue.next_to_send().unwrap().message);
    sent.push(queue.next_to_send().unwrap().message);
    assert!(!queue.enqueue(payload("info", "p4")));
    while let Some(p) = queue.next_to_send() {
        sent.push(p.message);
    }
    assert_eq!(sent, vec!["p1", "p2", "p3", "p4"]);
    assert!(!queue.is_sending());
}

#[test]
fn relay_line_ignores_level_spelling_and_trailing_message_space() {
    let mut plain = payload("warn", "disk low");
    plain.target = Some("app::disk".to_string());
    plain.file = Some("/srv/app/src/disk.rs".to_string());
    plain.line = Some(7);
    let mut spelled = plain.clone();
    spelled.level = " \tWaRN ".to_string();
    spelled.message = "disk low \n\t".to_string();
    for verbose in [false, true] {
        assert_eq!(format_relay_line(&spelled, verbose), format_relay_line(&plain, verbose));
    }
    assert!(format_relay_line(&spelled, true).contains("File: disk.rs"));
    assert!(format_relay_line(&spelled, true).ends_with("disk low"));
}

#[test]
fn split_gives_one_more_line_than_line_breaks() {
    for text in ["", "a", "a\n\nb\n", "\n\n\n", "x\ny"] {
        let breaks = text.matches('\n').count();
        assert_eq!(split_formatted_lines(text).len(), breaks + 1);
    }
}
