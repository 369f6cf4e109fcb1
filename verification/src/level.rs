//! Log levels, level filters, and the level-filter parser.

use vstd::prelude::*;
use crate::text::{ascii_lower, ascii_lowercase};

verus! {

/// The severity of a log record, most severe first.
#[derive(Clone, Copy, Debug, PartialEq, Eq, Structural)]
pub enum Level {
    Error,
    Warn,
    Info,
    Debug,
    Trace,
}

/// The most verbose level a logger lets through, or `Off`.
#[derive(Clone, Copy, Debug, PartialEq, Eq, Structural)]
pub enum LevelFilter {
    Off,
    Error,
    Warn,
    Info,
    Debug,
    Trace,
}

/// The name that the `log` crate gives a level.
pub open spec fn level_name(l: Level) -> Seq<char> {
    match l {
        Level::Error => "ERROR"@,
        Level::Warn => "WARN"@,
        Level::Info => "INFO"@,
        Level::Debug => "DEBUG"@,
        Level::Trace => "TRACE"@,
    }
}

/// The lower-case name of a level filter; a filter's name matches it with
/// ASCII case ignored.
pub open spec fn level_filter_key(f: LevelFilter) -> Seq<char> {
    match f {
        LevelFilter::Off => "off"@,
        LevelFilter::Error => "error"@,
        LevelFilter::Warn => "warn"@,
        LevelFilter::Info => "info"@,
        LevelFilter::Debug => "debug"@,
        LevelFilter::Trace => "trace"@,
    }
}

/// The filter that a level string selects: the filter whose name equals it
/// with ASCII case ignored, and `Info` for any other string.
pub open spec fn level_filter_of(s: Seq<char>) -> LevelFilter {
    let k = ascii_lower(s);
    if k == "off"@ {
        LevelFilter::Off
    } else if k == "error"@ {
        LevelFilter::Error
    } else if k == "warn"@ {
        LevelFilter::Warn
    } else if k == "info"@ {
        LevelFilter::Info
    } else if k == "debug"@ {
        LevelFilter::Debug
    } else if k == "trace"@ {
        LevelFilter::Trace
    } else {
        LevelFilter::Info
    }
}

/// `log::Level::as_str`: the upper-case name of a level.
#[verifier::external_body]
pub(crate) fn log_level_name(l: Level) -> (res: &'static str)
    ensures
        res@ == level_name(l),
{
    let level = match l {
        Level::Error => log::Level::Error,
        Level::Warn => log::Level::Warn,
        Level::Info => log::Level::Info,
        Level::Debug => log::Level::Debug,
        Level::Trace => log::Level::Trace,
    };
    level.as_str()
}

/// `<log::LevelFilter as FromStr>::from_str`: the filter whose name equals
/// `s` with ASCII case ignored (`eq_ignore_ascii_case`), or none.
#[verifier::external_body]
fn log_level_filter_from_str(s: &str) -> (res: Option<LevelFilter>)
    ensures
        match res {
            Some(f) => ascii_lower(s@) == level_filter_key(f),
            None => forall|f: LevelFilter| ascii_lower(s@) != #[trigger] level_filter_key(f),
        },
{
    match <log::LevelFilter as std::str::FromStr>::from_str(s) {
        Ok(log::LevelFilter::Off) => Some(LevelFilter::Off),
        Ok(log::LevelFilter::Error) => Some(LevelFilter::Error),
        Ok(log::LevelFilter::Warn) => Some(LevelFilter::Warn),
        Ok(log::LevelFilter::Info) => Some(LevelFilter::Info),
        Ok(log::LevelFilter::Debug) => Some(LevelFilter::Debug),
        Ok(log::LevelFilter::Trace) => Some(LevelFilter::Trace),
        Err(_) => None,
    }
}

/// A handle on the `log` facade's process-wide settings. Its model is the
/// maximum level the facade lets through; only `set_max_log_level`, which
/// makes the `log` call, changes it.
pub struct LogFacade {
    max_level: Ghost<LevelFilter>,
}

impl LogFacade {
    /// The maximum level that the facade lets through.
    pub closed spec fn max_level(&self) -> LevelFilter {
        self.max_level@
    }

    /// A handle on the facade. What it holds before a setter runs through it
    /// is left open: other code may have set the level already.
    pub fn new() -> (res: Self) {
        LogFacade { max_level: Ghost(LevelFilter::Off) }
    }
}

/// `log::set_max_level`: sets the global maximum level that the `log`
/// facade lets through to `f` (it stores `f` in the facade's global filter).
#[verifier::external_body]
pub(crate) fn set_max_log_level(facade: &mut LogFacade, f: LevelFilter)
    ensures
        final(facade).max_level() == f,
{
    log::set_max_level(
        match f {
            LevelFilter::Off => log::LevelFilter::Off,
            LevelFilter::Error => log::LevelFilter::Error,
            LevelFilter::Warn => log::LevelFilter::Warn,
            LevelFilter::Info => log::LevelFilter::Info,
            LevelFilter::Debug => log::LevelFilter::Debug,
            LevelFilter::Trace => log::LevelFilter::Trace,
        },
    )
}

/// The lower-case filter names are pairwise different.
proof fn lemma_level_filter_keys_distinct()
    ensures
        forall|f: LevelFilter, g: LevelFilter|
            #[trigger] level_filter_key(f) == #[trigger] level_filter_key(g) ==> f == g,
{
    reveal_strlit("off");
    reveal_strlit("error");
    reveal_strlit("warn");
    reveal_strlit("info");
    reveal_strlit("debug");
    reveal_strlit("trace");
    assert forall|f: LevelFilter, g: LevelFilter|
        #[trigger] level_filter_key(f) == #[trigger] level_filter_key(g) implies f == g by {
        let a = level_filter_key(f);
        let b = level_filter_key(g);
        if f != g {
            assert(a.len() != b.len() || a[0] != b[0]);
        }
    }
}

/// Parses a level string such as `"debug"` or `"INFO"` into a filter,
/// falling back to `Info` for anything that names no filter.
pub fn parse_level_filter(log_level: &str) -> (res: LevelFilter)
    ensures
        res == level_filter_of(log_level@),
{
    match log_level_filter_from_str(log_level) {
        Some(f) => {
            proof {
                lemma_level_filter_names_parse(f, log_level@);
            }
            f
        },
        None => {
            assert(ascii_lower(log_level@) != level_filter_key(LevelFilter::Off));
            assert(ascii_lower(log_level@) != level_filter_key(LevelFilter::Error));
            assert(ascii_lower(log_level@) != level_filter_key(LevelFilter::Warn));
            assert(ascii_lower(log_level@) != level_filter_key(LevelFilter::Info));
            assert(ascii_lower(log_level@) != level_filter_key(LevelFilter::Debug));
            assert(ascii_lower(log_level@) != level_filter_key(LevelFilter::Trace));
            LevelFilter::Info
        },
    }
}

/// Whether the filter turns logging off entirely.
pub fn is_off(f: LevelFilter) -> (res: bool)
    ensures
        res == (f == LevelFilter::Off),
{
    match f {
        LevelFilter::Off => true,
        _ => false,
    }
}

/// The lower-case name of a level, as relay payloads carry it.
pub open spec fn level_key(l: Level) -> Seq<char> {
    ascii_lower(level_name(l))
}

/// The lower-case name of a level (`"error"`, `"warn"`, ...).
pub fn level_lowercase_name(l: Level) -> (res: String)
    ensures
        res@ == level_key(l),
{
    ascii_lowercase(log_level_name(l))
}

/// Every filter's name, in any ASCII case, parses back to that filter.
pub proof fn lemma_level_filter_names_parse(f: LevelFilter, s: Seq<char>)
    requires
        ascii_lower(s) == level_filter_key(f),
    ensures
        level_filter_of(s) == f,
{
    lemma_level_filter_keys_distinct();
    let _ = level_filter_key(LevelFilter::Off);
    let _ = level_filter_key(LevelFilter::Error);
    let _ = level_filter_key(LevelFilter::Warn);
    let _ = level_filter_key(LevelFilter::Info);
    let _ = level_filter_key(LevelFilter::Debug);
    let _ = level_filter_key(LevelFilter::Trace);
}

} // verus!
