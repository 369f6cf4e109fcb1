//! The native logger: its settings and the text it prints for each record.
//!
//! In verbose mode errors and debug records show the source file and line
//! number; in compact mode only a level tag and the message are printed.

use vstd::prelude::*;
use crate::color::{Color, ansi_code, ansi_code_str, ansi_reset, ansi_reset_str, colored, colorize};
use crate::formatting::{
    banner, banner_string, extract_after_src, file_path_of, line_number_string, line_text, log_debug,
    log_error, record_block,
};
use crate::level::{
    Level, LevelFilter, LogFacade, level_filter_of, level_name, parse_level_filter, set_max_log_level,
};
use crate::text::{
    all_white_space, ascii_lower, ascii_lowercase, contains_seq, contains_str, is_white_space,
    lemma_trim_ignores_surrounding_space, lemma_trim_keeps_case_equality, str_eq, trim, trim_end_seq,
    trim_seq, trim_start_seq,
};

verus! {

/// Log target for semantic informational messages.
pub const MESSAGE_TARGET: &'static str = "goggin_rs_logger::message";

/// Log target for semantic success messages.
pub const SUCCESS_TARGET: &'static str = "goggin_rs_logger::success";

/// A log record, as the logger receives it from the `log` facade.
pub struct LogRecord {
    /// The record's severity.
    pub level: Level,
    /// The target, usually the module path of the call site.
    pub target: String,
    /// The rendered message.
    pub message: String,
    /// The source file of the call site, when known.
    pub file: Option<String>,
    /// The source line of the call site, when known.
    pub line: Option<u32>,
}

/// The characters of an optional string.
pub open spec fn opt_view(o: Option<String>) -> Option<Seq<char>> {
    match o {
        Some(s) => Some(s@),
        None => None,
    }
}

/// The one-line compact output for a record.
pub open spec fn compact_output(level: Level, target: Seq<char>, message: Seq<char>) -> Seq<char> {
    match level {
        Level::Error => colored(Color::Red, "[ERROR] "@ + message),
        Level::Warn => colored(Color::Yellow, "[WARN] "@ + message),
        Level::Info => if target == SUCCESS_TARGET@ {
            colored(Color::Green, message)
        } else if target == MESSAGE_TARGET@ {
            colored(Color::Blue, message)
        } else {
            message
        },
        Level::Debug => colored(Color::Blue, "[DEBUG] "@ + message),
        Level::Trace => colored(Color::Magenta, "[TRACE] "@ + message),
    }
}

/// The verbose output for a record whose source path shows as `file` and
/// whose line number shows as `line`.
pub open spec fn verbose_output(
    level: Level,
    target: Seq<char>,
    message: Seq<char>,
    file: Seq<char>,
    line: Seq<char>,
) -> Seq<char> {
    match level {
        Level::Info => if target == SUCCESS_TARGET@ {
            colored(Color::Green, banner(message))
        } else if target == MESSAGE_TARGET@ {
            colored(Color::Blue, banner(message))
        } else {
            "\n"@ + ansi_code(Color::Blue) + message + ansi_reset()
        },
        Level::Error => record_block(Color::Red, "Error"@, file, line, message),
        Level::Debug => record_block(Color::Yellow, "Debug"@, file, line, message),
        _ => "\n"@ + ansi_code(Color::Magenta) + "File: "@ + file + ansi_reset() + "\n"@
            + ansi_code(Color::Magenta) + "Line Number: "@ + line + ansi_reset() + "\n"@ + message,
    }
}

/// What the logger prints for a record (one `println!` of the returned
/// text), or nothing for records from files under a crates registry index.
pub open spec fn record_output(
    verbose: bool,
    level: Level,
    target: Seq<char>,
    message: Seq<char>,
    file: Option<Seq<char>>,
    line: Option<u32>,
) -> Option<Seq<char>> {
    let path = file_path_of(file);
    if contains_seq(path, "index.crates"@) {
        None
    } else if !verbose {
        Some(compact_output(level, target, message))
    } else {
        Some(verbose_output(level, target, message, path, line_text(line)))
    }
}

/// What the logger prints for a semantic status message in color `c`: a
/// banner in verbose mode, the plain message otherwise.
pub open spec fn status_output(verbose: bool, c: Color, message: Seq<char>) -> Seq<char> {
    if verbose {
        colored(c, banner(message))
    } else {
        colored(c, message)
    }
}

/// The verbosity that a `LOG_VERBOSE` value selects: `false` for the words
/// false, 0, no and off (trimmed, ASCII case ignored), `true` for any other value.
pub open spec fn verbose_flag_of(value: Seq<char>) -> bool {
    let k = ascii_lower(trim_seq(value));
    if k == "true"@ || k == "1"@ || k == "yes"@ || k == "on"@ {
        true
    } else if k == "false"@ || k == "0"@ || k == "no"@ || k == "off"@ {
        false
    } else {
        true
    }
}

/// The application-wide logger settings.
///
/// `verbose` selects the structured output with file paths and line numbers;
/// otherwise records print as level-tagged single lines.
pub struct Logger {
    /// Whether output is verbose.
    pub verbose: bool,
    /// The maximum level handed to the `log` facade.
    pub max_level: LevelFilter,
}

impl Logger {
    /// Sets the `log` facade's maximum level to the filter that `log_level`
    /// names and returns the logger settings: `verbose`, and as `max_level`
    /// the filter that was set.
    pub fn setup_logging(facade: &mut LogFacade, log_level: &str, verbose: bool) -> (res: Logger)
        ensures
            final(facade).max_level() == level_filter_of(log_level@),
            res.verbose == verbose,
            res.max_level == final(facade).max_level(),
    {
        let max_level = parse_level_filter(log_level);
        set_max_log_level(facade, max_level);
        Logger { verbose, max_level }
    }

    /// Sets up logging from the values of `LOG_LEVEL` and `LOG_VERBOSE`
    /// (`None` where a variable is unset): the level defaults to `"info"`
    /// and the output to verbose.
    pub fn setup_logging_from_env(
        facade: &mut LogFacade,
        log_level: Option<&str>,
        log_verbose: Option<&str>,
    ) -> (res: Logger)
        ensures
            final(facade).max_level() == res.max_level,
            res.max_level == level_filter_of(
                match log_level {
                    Some(l) => l@,
                    None => "info"@,
                },
            ),
            res.verbose == match log_verbose {
                Some(v) => verbose_flag_of(v@),
                None => true,
            },
    {
        let level = match log_level {
            Some(l) => l,
            None => "info",
        };
        let verbose = match log_verbose {
            Some(v) => {
                let k = ascii_lowercase(trim(v));
                let ks = k.as_str();
                if str_eq(ks, "true") || str_eq(ks, "1") || str_eq(ks, "yes") || str_eq(ks, "on") {
                    true
                } else if str_eq(ks, "false") || str_eq(ks, "0") || str_eq(ks, "no") || str_eq(
                    ks,
                    "off",
                ) {
                    false
                } else {
                    true
                }
            },
            None => true,
        };
        Self::setup_logging(facade, level, verbose)
    }

    /// Whether verbose output is enabled.
    pub fn is_verbose(&self) -> (res: bool)
        ensures
            res == self.verbose,
    {
        self.verbose
    }

    /// The green success line for `message`: a banner in verbose mode, the
    /// plain message otherwise; nothing when info records are disabled.
    pub fn log_success(&self, message: &str, info_enabled: bool) -> (res: Option<String>)
        ensures
            match res {
                Some(s) => info_enabled && s@ == status_output(self.verbose, Color::Green, message@),
                None => !info_enabled,
            },
    {
        if !info_enabled {
            return None;
        }
        Some(status_string(self.verbose, Color::Green, message))
    }

    /// The blue informational line for `message`: a banner in verbose mode,
    /// the plain message otherwise; nothing when info records are disabled.
    pub fn log_message(&self, message: &str, info_enabled: bool) -> (res: Option<String>)
        ensures
            match res {
                Some(s) => info_enabled && s@ == status_output(self.verbose, Color::Blue, message@),
                None => !info_enabled,
            },
    {
        if !info_enabled {
            return None;
        }
        Some(status_string(self.verbose, Color::Blue, message))
    }

    /// The text printed for `record`, or `None` when the record comes from a
    /// file under a crates registry index and is not printed.
    pub fn log(&self, record: &LogRecord) -> (res: Option<String>)
        ensures
            match res {
                Some(s) => record_output(
                    self.verbose,
                    record.level,
                    record.target@,
                    record.message@,
                    opt_view(record.file),
                    record.line,
                ) == Some(s@),
                None => record_output(
                    self.verbose,
                    record.level,
                    record.target@,
                    record.message@,
                    opt_view(record.file),
                    record.line,
                ) is None,
            },
    {
        let file_path = match &record.file {
            Some(f) => extract_after_src(Some(f.as_str())),
            None => extract_after_src(None),
        };
        if contains_str(file_path.as_str(), "index.crates") {
            return None;
        }
        if !self.verbose {
            return Some(compact_string(record.level, record.target.as_str(), record.message.as_str()));
        }
        match record.level {
            Level::Error => return Some(log_error(record)),
            Level::Debug => return Some(log_debug(record)),
            _ => {},
        }
        let line_number = line_number_string(record.line);
        Some(
            verbose_string(
                record.level,
                record.target.as_str(),
                record.message.as_str(),
                file_path.as_str(),
                line_number.as_str(),
            ),
        )
    }
}

/// The text for a semantic status message in color `c`.
fn status_string(verbose: bool, c: Color, message: &str) -> (res: String)
    ensures
        res@ == status_output(verbose, c, message@),
{
    if verbose {
        colorize(banner_string(message).as_str(), c)
    } else {
        colorize(message, c)
    }
}

/// `tag` followed by `message`.
fn tagged(tag: &str, message: &str) -> (res: String)
    ensures
        res@ == tag@ + message@,
{
    let mut res = String::new();
    res.append(tag);
    res.append(message);
    res
}

/// The compact one-line output for a record.
fn compact_string(level: Level, target: &str, message: &str) -> (res: String)
    ensures
        res@ == compact_output(level, target@, message@),
{
    match level {
        Level::Error => colorize(tagged("[ERROR] ", message).as_str(), Color::Red),
        Level::Warn => colorize(tagged("[WARN] ", message).as_str(), Color::Yellow),
        Level::Info => if str_eq(target, SUCCESS_TARGET) {
            colorize(message, Color::Green)
        } else if str_eq(target, MESSAGE_TARGET) {
            colorize(message, Color::Blue)
        } else {
            String::from_str(message)
        },
        Level::Debug => colorize(tagged("[DEBUG] ", message).as_str(), Color::Blue),
        Level::Trace => colorize(tagged("[TRACE] ", message).as_str(), Color::Magenta),
    }
}

/// The verbose output for an info, warn or trace record.
fn verbose_string(level: Level, target: &str, message: &str, file: &str, line: &str) -> (res:
    String)
    requires
        level != Level::Error,
        level != Level::Debug,
    ensures
        res@ == verbose_output(level, target@, message@, file@, line@),
{
    match level {
        Level::Info => if str_eq(target, SUCCESS_TARGET) {
            colorize(banner_string(message).as_str(), Color::Green)
        } else if str_eq(target, MESSAGE_TARGET) {
            colorize(banner_string(message).as_str(), Color::Blue)
        } else {
            let mut res = String::new();
            res.append("\n");
            res.append(ansi_code_str(Color::Blue));
            res.append(message);
            res.append(ansi_reset_str());
            res
        },
        _ => {
            let purple = ansi_code_str(Color::Magenta);
            let clear = ansi_reset_str();
            let mut res = String::new();
            res.append("\n");
            res.append(purple);
            res.append("File: ");
            res.append(file);
            res.append(clear);
            res.append("\n");
            res.append(purple);
            res.append("Line Number: ");
            res.append(line);
            res.append(clear);
            res.append("\n");
            res.append(message);
            res
        },
    }
}

/// The two semantic targets differ.
pub proof fn lemma_semantic_targets_differ()
    ensures
        MESSAGE_TARGET@ != SUCCESS_TARGET@,
{
    reveal_strlit("goggin_rs_logger::message");
    reveal_strlit("goggin_rs_logger::success");
    assert(MESSAGE_TARGET@[18] != SUCCESS_TARGET@[18]);
}

/// A status line prints as the logger prints an info record sent to the
/// matching semantic target: success lines as records for `SUCCESS_TARGET`,
/// informational lines as records for `MESSAGE_TARGET` (for records not
/// from a crates registry index).
pub proof fn lemma_status_lines_match_semantic_records(
    verbose: bool,
    message: Seq<char>,
    file: Option<Seq<char>>,
    line: Option<u32>,
)
    requires
        !contains_seq(file_path_of(file), "index.crates"@),
    ensures
        record_output(verbose, Level::Info, SUCCESS_TARGET@, message, file, line) == Some(
            status_output(verbose, Color::Green, message),
        ),
        record_output(verbose, Level::Info, MESSAGE_TARGET@, message, file, line) == Some(
            status_output(verbose, Color::Blue, message),
        ),
{
    lemma_semantic_targets_differ();
}

/// A compact line for a record of any level but info is the level's color,
/// the record's own level name in brackets, the message and the reset
/// sequence: red `[ERROR]`, yellow `[WARN]`, blue `[DEBUG]`, magenta
/// `[TRACE]`, whatever the target. So two levels never share a tag.
pub proof fn lemma_compact_line_names_its_level(level: Level, target: Seq<char>, message: Seq<char>)
    requires
        level != Level::Info,
    ensures
        compact_output(level, target, message) == match level {
            Level::Error => "\x1b[31m[ERROR] "@ + message + "\x1b[0m"@,
            Level::Warn => "\x1b[33m[WARN] "@ + message + "\x1b[0m"@,
            Level::Debug => "\x1b[34m[DEBUG] "@ + message + "\x1b[0m"@,
            _ => "\x1b[35m[TRACE] "@ + message + "\x1b[0m"@,
        },
        compact_output(level, target, message).subrange(5, 8 + level_name(level).len() as int) == "["@
            + level_name(level) + "] "@,
{
    reveal_strlit("\x1b[31m[ERROR] ");
    reveal_strlit("\x1b[33m[WARN] ");
    reveal_strlit("\x1b[34m[DEBUG] ");
    reveal_strlit("\x1b[35m[TRACE] ");
    reveal_strlit("\x1b[0m");
    reveal_strlit("\x1b[31m");
    reveal_strlit("\x1b[32m");
    reveal_strlit("\x1b[33m");
    reveal_strlit("\x1b[34m");
    reveal_strlit("\x1b[35m");
    reveal_strlit("\x1b[36m");
    reveal_strlit("[ERROR] ");
    reveal_strlit("[WARN] ");
    reveal_strlit("[DEBUG] ");
    reveal_strlit("[TRACE] ");
    reveal_strlit("[");
    reveal_strlit("] ");
    reveal_strlit("ERROR");
    reveal_strlit("WARN");
    reveal_strlit("DEBUG");
    reveal_strlit("TRACE");
    let out = compact_output(level, target, message);
    match level {
        Level::Error => {
            assert(out =~= "\x1b[31m[ERROR] "@ + message + "\x1b[0m"@);
            assert(out.subrange(5, 13) =~= "["@ + level_name(level) + "] "@);
        },
        Level::Warn => {
            assert(out =~= "\x1b[33m[WARN] "@ + message + "\x1b[0m"@);
            assert(out.subrange(5, 12) =~= "["@ + level_name(level) + "] "@);
        },
        Level::Debug => {
            assert(out =~= "\x1b[34m[DEBUG] "@ + message + "\x1b[0m"@);
            assert(out.subrange(5, 13) =~= "["@ + level_name(level) + "] "@);
        },
        _ => {
            assert(out =~= "\x1b[35m[TRACE] "@ + message + "\x1b[0m"@);
            assert(out.subrange(5, 13) =~= "["@ + level_name(level) + "] "@);
        },
    }
}

/// The `LOG_VERBOSE` value selects compact output exactly when, trimmed and
/// lower-cased, it is one of the words false, 0, no and off; every other
/// value (true, 1, yes, on, or anything else) selects verbose output.
pub proof fn lemma_verbose_flag_words(value: Seq<char>)
    ensures
        !verbose_flag_of(value) <==> {
            let k = ascii_lower(trim_seq(value));
            k == "false"@ || k == "0"@ || k == "no"@ || k == "off"@
        },
{
    reveal_strlit("true");
    reveal_strlit("1");
    reveal_strlit("yes");
    reveal_strlit("on");
    reveal_strlit("false");
    reveal_strlit("0");
    reveal_strlit("no");
    reveal_strlit("off");
    let k = ascii_lower(trim_seq(value));
    if k == "false"@ || k == "0"@ || k == "no"@ || k == "off"@ {
        assert(k != "true"@ && k != "1"@ && k != "yes"@ && k != "on"@) by {
            assert("true"@.len() == 4 && "1"@.len() == 1 && "yes"@.len() == 3 && "on"@.len() == 2);
            assert("1"@[0] == '1' && "yes"@[0] == 'y' && "on"@[0] == 'o');
            if k == "0"@ {
                assert(k[0] == '0');
            } else if k == "no"@ {
                assert(k[0] == 'n');
            } else if k == "off"@ {
                assert(k[0] == 'o');
            } else {
                assert(k.len() == 5);
            }
        }
    }
}

/// One of the words false, 0, no and off, in any ASCII case and with any
/// whitespace around it, selects compact output.
pub proof fn lemma_off_words_select_compact(before: Seq<char>, word: Seq<char>, after: Seq<char>)
    requires
        all_white_space(before),
        all_white_space(after),
        ascii_lower(word) == "false"@ || ascii_lower(word) == "0"@ || ascii_lower(word) == "no"@
            || ascii_lower(word) == "off"@,
    ensures
        !verbose_flag_of(before + word + after),
{
    reveal_strlit("false");
    reveal_strlit("0");
    reveal_strlit("no");
    reveal_strlit("off");
    let lit = ascii_lower(word);
    lemma_trim_ignores_surrounding_space(before, word, after);
    assert(trim_seq(lit) == lit) by {
        assert(!is_white_space(lit[0]));
        assert(!is_white_space(lit.last()));
        assert(trim_start_seq(lit) == lit);
        assert(trim_end_seq(lit) == lit);
    }
    assert(ascii_lower(lit) =~= lit);
    lemma_trim_keeps_case_equality(word, lit);
    lemma_verbose_flag_words(before + word + after);
}

/// A compact line for an info record is the message in green for the
/// success target, in blue for the message target, and the bare message
/// for any other target.
pub proof fn lemma_compact_info_line(target: Seq<char>, message: Seq<char>)
    ensures
        compact_output(Level::Info, target, message) == if target == SUCCESS_TARGET@ {
            "\x1b[32m"@ + message + "\x1b[0m"@
        } else if target == MESSAGE_TARGET@ {
            "\x1b[34m"@ + message + "\x1b[0m"@
        } else {
            message
        },
{
    reveal_strlit("\x1b[32m");
    reveal_strlit("\x1b[34m");
    reveal_strlit("\x1b[0m");
    let out = compact_output(Level::Info, target, message);
    if target == SUCCESS_TARGET@ {
        assert(out =~= "\x1b[32m"@ + message + "\x1b[0m"@);
    } else if target == MESSAGE_TARGET@ {
        assert(out =~= "\x1b[34m"@ + message + "\x1b[0m"@);
    }
}

} // verus!
