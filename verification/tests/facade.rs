use goggin_rs_logger::relay::emitter::WebLoggerConfig;
use goggin_rs_logger::{LevelFilter, LogFacade, Logger, init_web_logging_with_config};

#[test]
fn setup_sets_the_log_facade_maximum_level_and_the_last_call_wins() {
    let mut facade = LogFacade::new();
    let settings = Logger::setup_logging(&mut facade, "debug", false);
    assert_eq!(settings.max_level, LevelFilter::Debug);
    assert_eq!(log::max_level(), log::LevelFilter::Debug);
    Logger::setup_logging(&mut facade, "ERROR", true);
    assert_eq!(log::max_level(), log::LevelFilter::Error);
    Logger::setup_logging_from_env(&mut facade, None, None);
    assert_eq!(log::max_level(), log::LevelFilter::Info);
    let config = WebLoggerConfig::new("warn", None);
    init_web_logging_with_config(&mut facade, config);
    assert_eq!(log::max_level(), log::LevelFilter::Warn);
}
