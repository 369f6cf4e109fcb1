//! Server-side relay: formats posted payloads in the native logger's style
//! and splits the result into lines for a sink.

use vstd::prelude::*;
use crate::color::{Color, ansi_code, ansi_code_str, ansi_reset, ansi_reset_str};
use crate::backend::{
    MESSAGE_TARGET, SUCCESS_TARGET, lemma_semantic_targets_differ, opt_view, record_output,
};
use crate::formatting::{after_src, file_path_of, hashtags, line_number_string, line_text};
use crate::level::{Level, level_key};
use crate::relay::RelayLogPayload;
use crate::text::{
    all_white_space, ascii_lower, ascii_lowercase, chars_of, contains_seq, find_chars, is_first_occurrence,
    lemma_first_occurrence_unique, lemma_trim_end_ignores_added_space, lemma_trim_ignores_surrounding_space,
    lemma_trim_keeps_case_equality, repeat_seq, str_eq, suffix_string, trim, trim_end, trim_end_seq,
    trim_seq,
};

verus! {

/// The relay formatting category of a payload's level.
#[derive(Clone, Copy, Debug, PartialEq, Eq, Structural)]
pub enum WebLogLevel {
    /// Error-level browser logs.
    Error,
    /// Warning-level browser logs.
    Warn,
    /// Info-level browser logs.
    Info,
    /// Debug-level browser logs.
    Debug,
    /// Trace-level browser logs.
    Trace,
}

/// The semantic status kinds that have their own formatting.
#[derive(Clone, Copy, Debug, PartialEq, Eq, Structural)]
pub enum SemanticLogKind {
    Message,
    Success,
}

/// The category that a raw level string selects: after trimming and with
/// ASCII case ignored, `error`, `warn` or `warning`, `debug`, `trace`;
/// anything else, `info` among it, is `Info`.
pub open spec fn web_level_of(raw: Seq<char>) -> WebLogLevel {
    let k = ascii_lower(trim_seq(raw));
    if k == "error"@ {
        WebLogLevel::Error
    } else if k == "warn"@ || k == "warning"@ {
        WebLogLevel::Warn
    } else if k == "debug"@ {
        WebLogLevel::Debug
    } else if k == "trace"@ {
        WebLogLevel::Trace
    } else {
        WebLogLevel::Info
    }
}

/// The semantic kind that a target names, if any.
pub open spec fn semantic_kind_of(target: Option<Seq<char>>) -> Option<SemanticLogKind> {
    match target {
        Some(t) => if t == MESSAGE_TARGET@ {
            Some(SemanticLogKind::Message)
        } else if t == SUCCESS_TARGET@ {
            Some(SemanticLogKind::Success)
        } else {
            None
        },
        None => None,
    }
}

/// The color of a semantic kind.
pub open spec fn semantic_color(kind: SemanticLogKind) -> Color {
    match kind {
        SemanticLogKind::Message => Color::Blue,
        SemanticLogKind::Success => Color::Green,
    }
}

/// The relay text for a semantic status message.
pub open spec fn semantic_output(kind: SemanticLogKind, message: Seq<char>, verbose: bool) -> Seq<
    char,
> {
    let color = ansi_code(semantic_color(kind));
    if verbose {
        "\n"@ + color + "######"@ + " "@ + message + " "@ + "######"@ + ansi_reset() + "\n"@
    } else {
        color + message + ansi_reset()
    }
}

/// The compact relay text for a message at the given level.
pub open spec fn non_verbose_output(level: WebLogLevel, message: Seq<char>) -> Seq<char> {
    match level {
        WebLogLevel::Error => ansi_code(Color::Red) + "[ERROR] "@ + message + ansi_reset(),
        WebLogLevel::Warn => ansi_code(Color::Yellow) + "[WARN] "@ + message + ansi_reset(),
        WebLogLevel::Info => message,
        WebLogLevel::Debug => ansi_code(Color::Blue) + "[DEBUG] "@ + message + ansi_reset(),
        WebLogLevel::Trace => ansi_code(Color::Magenta) + "[TRACE] "@ + message + ansi_reset(),
    }
}

/// The verbose relay block for an error or debug payload.
pub open spec fn error_like_output(
    title: Seq<char>,
    c: Color,
    file: Seq<char>,
    line: Seq<char>,
    message: Seq<char>,
) -> Seq<char> {
    let color = ansi_code(c);
    "\n"@ + color + "######"@ + " "@ + title + " "@ + "######"@ + ansi_reset() + "\n"@ + color
        + "File: "@ + file + ansi_reset() + "\n"@ + color + "Line Number: "@ + line + ansi_reset()
        + "\n"@ + "\n"@ + color + message + ansi_reset()
}

/// The part of `path` after its first `src/`, or the whole path when it
/// holds no `src/`.
pub open spec fn relay_after_src(path: Seq<char>) -> Seq<char> {
    if contains_seq(path, "src/"@) {
        let i = choose|i: int| is_first_occurrence(path, "src/"@, i);
        path.skip(i + "src/"@.len())
    } else {
        path
    }
}

/// The source location a payload shows: the file path after `src/` when
/// that is not empty, otherwise the target, otherwise nothing.
pub open spec fn relay_file_of(file: Option<Seq<char>>, target: Option<Seq<char>>) -> Seq<char> {
    match file {
        Some(f) if relay_after_src(f).len() > 0 => relay_after_src(f),
        _ => match target {
            Some(t) => t,
            None => Seq::empty(),
        },
    }
}

/// The relay text for a payload: one or more ANSI-decorated lines joined
/// by line breaks.
pub open spec fn relay_output(
    level: Seq<char>,
    message: Seq<char>,
    target: Option<Seq<char>>,
    file: Option<Seq<char>>,
    line: Option<u32>,
    verbose: bool,
) -> Seq<char> {
    let lvl = web_level_of(level);
    let msg = trim_end_seq(message);
    match semantic_kind_of(target) {
        Some(kind) => semantic_output(kind, msg, verbose),
        None => if !verbose {
            non_verbose_output(lvl, msg)
        } else {
            let f = relay_file_of(file, target);
            let l = line_text(line);
            match lvl {
                WebLogLevel::Info => "\n"@ + ansi_code(Color::Blue) + msg + ansi_reset(),
                WebLogLevel::Error => error_like_output("Error"@, Color::Red, f, l, msg),
                WebLogLevel::Debug => error_like_output("Debug"@, Color::Yellow, f, l, msg),
                _ => "\n"@ + ansi_code(Color::Magenta) + "File: "@ + f + ansi_reset() + "\n"@
                    + ansi_code(Color::Magenta) + "Line Number: "@ + l + ansi_reset() + "\n"@ + msg,
            }
        },
    }
}

/// The lines of `ls` joined by line breaks.
pub open spec fn join_lines(ls: Seq<Seq<char>>) -> Seq<char>
    decreases ls.len(),
{
    if ls.len() == 0 {
        Seq::empty()
    } else if ls.len() == 1 {
        ls[0]
    } else {
        join_lines(ls.drop_last()) + seq!['\n'] + ls.last()
    }
}

/// The characters of each string in `v`.
pub open spec fn lines_view(v: Seq<String>) -> Seq<Seq<char>> {
    v.map_values(|l: String| l@)
}

impl WebLogLevel {
    /// Parses a raw level string into a category, defaulting to `Info`.
    pub fn parse(raw: &str) -> (res: Self)
        ensures
            res == web_level_of(raw@),
    {
        let k = ascii_lowercase(trim(raw));
        let ks = k.as_str();
        if str_eq(ks, "error") {
            WebLogLevel::Error
        } else if str_eq(ks, "warn") || str_eq(ks, "warning") {
            WebLogLevel::Warn
        } else if str_eq(ks, "debug") {
            WebLogLevel::Debug
        } else if str_eq(ks, "trace") {
            WebLogLevel::Trace
        } else if str_eq(ks, "info") {
            WebLogLevel::Info
        } else {
            WebLogLevel::Info
        }
    }
}

/// The semantic kind that a target names, if any.
pub fn parse_semantic_log_kind(target: Option<&str>) -> (res: Option<SemanticLogKind>)
    ensures
        res == semantic_kind_of(
            match target {
                Some(t) => Some(t@),
                None => None,
            },
        ),
{
    match target {
        Some(t) => if str_eq(t, MESSAGE_TARGET) {
            Some(SemanticLogKind::Message)
        } else if str_eq(t, SUCCESS_TARGET) {
            Some(SemanticLogKind::Success)
        } else {
            None
        },
        None => None,
    }
}

/// The relay text for a semantic status message.
pub fn format_semantic_line(kind: SemanticLogKind, message: &str, verbose: bool) -> (res: String)
    ensures
        res@ == semantic_output(kind, message@, verbose),
{
    let color = match kind {
        SemanticLogKind::Message => ansi_code_str(Color::Blue),
        SemanticLogKind::Success => ansi_code_str(Color::Green),
    };
    let hashtags = "######";
    let mut res = String::new();
    if verbose {
        res.append("\n");
        res.append(color);
        res.append(hashtags);
        res.append(" ");
        res.append(message);
        res.append(" ");
        res.append(hashtags);
        res.append(ansi_reset_str());
        res.append("\n");
        return res;
    }
    res.append(color);
    res.append(message);
    res.append(ansi_reset_str());
    res
}

/// The compact relay text for a message at the given level.
pub fn format_non_verbose(level: WebLogLevel, message: &str) -> (res: String)
    ensures
        res@ == non_verbose_output(level, message@),
{
    let (color, tag) = match level {
        WebLogLevel::Error => (ansi_code_str(Color::Red), "[ERROR] "),
        WebLogLevel::Warn => (ansi_code_str(Color::Yellow), "[WARN] "),
        WebLogLevel::Info => {
            return String::from_str(message);
        },
        WebLogLevel::Debug => (ansi_code_str(Color::Blue), "[DEBUG] "),
        WebLogLevel::Trace => (ansi_code_str(Color::Magenta), "[TRACE] "),
    };
    let mut res = String::new();
    res.append(color);
    res.append(tag);
    res.append(message);
    res.append(ansi_reset_str());
    res
}

/// The verbose relay block for an error or debug payload.
pub fn format_error_like(title: &str, color: Color, file: &str, line_number: &str, message: &str) -> (res:
    String)
    ensures
        res@ == error_like_output(title@, color, file@, line_number@, message@),
{
    let hashtags = "######";
    let c = ansi_code_str(color);
    let clear = ansi_reset_str();
    let mut res = String::new();
    res.append("\n");
    res.append(c);
    res.append(hashtags);
    res.append(" ");
    res.append(title);
    res.append(" ");
    res.append(hashtags);
    res.append(clear);
    res.append("\n");
    res.append(c);
    res.append("File: ");
    res.append(file);
    res.append(clear);
    res.append("\n");
    res.append(c);
    res.append("Line Number: ");
    res.append(line_number);
    res.append(clear);
    res.append("\n");
    res.append("\n");
    res.append(c);
    res.append(message);
    res.append(clear);
    res
}

/// The part of `path` after its first `src/`, or the whole path when it
/// holds no `src/`.
pub fn extract_after_src(path: &str) -> (res: String)
    ensures
        res@ == relay_after_src(path@),
{
    let cs = chars_of(path);
    let pat = chars_of("src/");
    let n = cs.len();
    match find_chars(cs.as_slice(), pat.as_slice()) {
        Some(i) => {
            proof {
                let j = choose|j: int| is_first_occurrence(path@, "src/"@, j);
                lemma_first_occurrence_unique(path@, "src/"@, i as int, j);
            }
            suffix_string(path, i + pat.len())
        },
        None => String::from_str(path),
    }
}

/// Formats a relay payload into one or more ANSI-decorated lines, in the
/// style the native logger prints.
pub fn format_relay_line(payload: &RelayLogPayload, verbose: bool) -> (res: String)
    ensures
        res@ == relay_output(
            payload.level@,
            payload.message@,
            opt_view(payload.target),
            opt_view(payload.file),
            payload.line,
            verbose,
        ),
{
    let level = WebLogLevel::parse(payload.level.as_str());
    let message = trim_end(payload.message.as_str());
    let target: Option<&str> = match &payload.target {
        Some(t) => Some(t.as_str()),
        None => None,
    };
    if let Some(kind) = parse_semantic_log_kind(target) {
        return format_semantic_line(kind, message, verbose);
    }
    let from_file: Option<String> = match &payload.file {
        Some(f) => {
            let after = extract_after_src(f.as_str());
            if after.unicode_len() > 0 {
                Some(after)
            } else {
                None
            }
        },
        None => None,
    };
    let file: String = match from_file {
        Some(f) => f,
        None => match &payload.target {
            Some(t) => t.clone(),
            None => String::new(),
        },
    };
    let line_number = line_number_string(payload.line);
    if !verbose {
        return format_non_verbose(level, message);
    }
    match level {
        WebLogLevel::Info => {
            let mut res = String::new();
            res.append("\n");
            res.append(ansi_code_str(Color::Blue));
            res.append(message);
            res.append(ansi_reset_str());
            res
        },
        WebLogLevel::Error => format_error_like(
            "Error",
            Color::Red,
            file.as_str(),
            line_number.as_str(),
            message,
        ),
        WebLogLevel::Debug => format_error_like(
            "Debug",
            Color::Yellow,
            file.as_str(),
            line_number.as_str(),
            message,
        ),
        _ => {
            let purple = ansi_code_str(Color::Magenta);
            let clear = ansi_reset_str();
            let mut res = String::new();
            res.append("\n");
            res.append(purple);
            res.append("File: ");
            res.append(file.as_str());
            res.append(clear);
            res.append("\n");
            res.append(purple);
            res.append("Line Number: ");
            res.append(line_number.as_str());
            res.append(clear);
            res.append("\n");
            res.append(message);
            res
        },
    }
}

/// Adding a character to the last line adds it to the end of the joined text.
proof fn lemma_join_push_char(ls: Seq<Seq<char>>, x: Seq<char>, c: char)
    ensures
        join_lines(ls.push(x.push(c))) == join_lines(ls.push(x)).push(c),
{
    assert(ls.push(x.push(c)).drop_last() == ls);
    assert(ls.push(x).drop_last() == ls);
    if ls.len() == 0 {
    } else {
        assert(join_lines(ls.push(x.push(c))) == join_lines(ls) + seq!['\n'] + x.push(c));
        assert(join_lines(ls.push(x)) == join_lines(ls) + seq!['\n'] + x);
        assert(join_lines(ls) + seq!['\n'] + x.push(c) == (join_lines(ls) + seq!['\n'] + x).push(
            c,
        ));
    }
}

/// The joined text of lines, the last line after the others and a line break.
proof fn lemma_join_last(ls: Seq<Seq<char>>)
    requires
        ls.len() >= 2,
    ensures
        join_lines(ls) == join_lines(ls.drop_last()) + seq!['\n'] + ls.last(),
{
}

/// Splitting into lines is unique: two sequences of at least one line,
/// none holding a line break, that join to the same text are equal. So the
/// lines that `split_formatted_lines` returns are the only ones its
/// contract admits.
pub proof fn lemma_split_lines_unique(a: Seq<Seq<char>>, b: Seq<Seq<char>>)
    requires
        a.len() >= 1,
        b.len() >= 1,
        forall|i: int| 0 <= i < a.len() ==> !(#[trigger] a[i]).contains('\n'),
        forall|i: int| 0 <= i < b.len() ==> !(#[trigger] b[i]).contains('\n'),
        join_lines(a) == join_lines(b),
    ensures
        a == b,
    decreases a.len() + b.len(),
{
    let s = join_lines(a);
    if a.len() == 1 && b.len() == 1 {
        assert(a =~= b);
    } else if a.len() == 1 {
        lemma_join_last(b);
        let k = join_lines(b.drop_last()).len() as int;
        assert(s[k] == '\n');
        assert(a[0][k] == '\n');
        assert(a[0].contains('\n'));
    } else if b.len() == 1 {
        lemma_join_last(a);
        let k = join_lines(a.drop_last()).len() as int;
        assert(s[k] == '\n');
        assert(b[0][k] == '\n');
        assert(b[0].contains('\n'));
    } else {
        lemma_join_last(a);
        lemma_join_last(b);
        let la = a.last();
        let lb = b.last();
        if la.len() < lb.len() {
            let k = s.len() - la.len() - 1;
            assert(s[k] == '\n');
            assert(lb[lb.len() - la.len() - 1] == s[k]);
            assert(lb.contains('\n'));
        } else if lb.len() < la.len() {
            let k = s.len() - lb.len() - 1;
            assert(s[k] == '\n');
            assert(la[la.len() - lb.len() - 1] == s[k]);
            assert(la.contains('\n'));
        } else {
            let pa = join_lines(a.drop_last());
            let pb = join_lines(b.drop_last());
            assert(pa.len() == pb.len());
            assert(la =~= s.skip(s.len() - la.len()));
            assert(lb =~= s.skip(s.len() - lb.len()));
            assert(pa =~= s.take(pa.len() as int));
            assert(pb =~= s.take(pb.len() as int));
            assert forall|i: int| 0 <= i < a.drop_last().len() implies !(#[trigger] a.drop_last()[i]).contains('\n') by {
                assert(a.drop_last()[i] == a[i]);
            }
            assert forall|i: int| 0 <= i < b.drop_last().len() implies !(#[trigger] b.drop_last()[i]).contains('\n') by {
                assert(b.drop_last()[i] == b[i]);
            }
            lemma_split_lines_unique(a.drop_last(), b.drop_last());
            assert(a =~= b.drop_last().push(lb));
            assert(b =~= b.drop_last().push(lb));
        }
    }
}

/// How many times `c` occurs in `s`.
pub open spec fn count_char(s: Seq<char>, c: char) -> nat
    decreases s.len(),
{
    if s.len() == 0 {
        0
    } else {
        count_char(s.drop_last(), c) + if s.last() == c {
            1nat
        } else {
            0nat
        }
    }
}

/// Occurrences in a concatenation add up.
proof fn lemma_count_char_add(a: Seq<char>, b: Seq<char>, c: char)
    ensures
        count_char(a + b, c) == count_char(a, c) + count_char(b, c),
    decreases b.len(),
{
    if b.len() == 0 {
        assert(a + b =~= a);
    } else {
        assert((a + b).drop_last() =~= a + b.drop_last());
        assert((a + b).last() == b.last());
        lemma_count_char_add(a, b.drop_last(), c);
    }
}

/// A sequence that does not contain `c` has no occurrence of it.
proof fn lemma_count_char_absent(s: Seq<char>, c: char)
    requires
        !s.contains(c),
    ensures
        count_char(s, c) == 0,
    decreases s.len(),
{
    if s.len() > 0 {
        assert(s.drop_last().contains(c) ==> s.contains(c)) by {
            if s.drop_last().contains(c) {
                let i = choose|i: int| 0 <= i < s.drop_last().len() && s.drop_last()[i] == c;
                assert(s[i] == c);
            }
        }
        assert(s[s.len() - 1] == s.last());
        lemma_count_char_absent(s.drop_last(), c);
    }
}

/// Lines without line breaks joined by line breaks hold one break fewer
/// than there are lines: text split into lines gives its number of line
/// breaks plus one lines.
pub proof fn lemma_line_count(ls: Seq<Seq<char>>)
    requires
        ls.len() >= 1,
        forall|i: int| 0 <= i < ls.len() ==> !(#[trigger] ls[i]).contains('\n'),
    ensures
        ls.len() == count_char(join_lines(ls), '\n') + 1,
    decreases ls.len(),
{
    if ls.len() == 1 {
        assert(!ls[0].contains('\n'));
        lemma_count_char_absent(ls[0], '\n');
    } else {
        let init = ls.drop_last();
        assert forall|i: int| 0 <= i < init.len() implies !(#[trigger] init[i]).contains('\n') by {
            assert(init[i] == ls[i]);
        }
        lemma_line_count(init);
        lemma_count_char_add(join_lines(init) + seq!['\n'], ls.last(), '\n');
        lemma_count_char_add(join_lines(init), seq!['\n'], '\n');
        let nl: Seq<char> = seq!['\n'];
        assert(nl.drop_last() =~= Seq::<char>::empty());
        assert(count_char(nl.drop_last(), '\n') == 0);
        assert(nl.last() == '\n');
        assert(count_char(nl, '\n') == 1);
        assert(!ls[ls.len() - 1].contains('\n'));
        lemma_count_char_absent(ls.last(), '\n');
    }
}

/// Splits formatted output into its lines, keeping blank lines: no line
/// holds a line break, and the lines joined by line breaks give back `formatted`.
pub fn split_formatted_lines(formatted: &str) -> (res: Vec<String>)
    ensures
        res@.len() >= 1,
        forall|i: int| 0 <= i < res@.len() ==> !(#[trigger] res@[i]@).contains('\n'),
        join_lines(lines_view(res@)) == formatted@,
        res@.len() == count_char(formatted@, '\n') + 1,
{
    let cs = chars_of(formatted);
    let n = cs.len();
    let mut lines: Vec<String> = Vec::new();
    let mut current = String::new();
    for i in 0..n
        invariant
            n == cs@.len(),
            cs@ == formatted@,
            forall|j: int| 0 <= j < lines@.len() ==> !(#[trigger] lines@[j]@).contains('\n'),
            !current@.contains('\n'),
            join_lines(lines_view(lines@).push(current@)) == formatted@.take(i as int),
    {
        let c = cs[i];
        let ghost prev_lines = lines@;
        let ghost prev_current = current@;
        if c == '\n' {
            lines.push(current);
            current = String::new();
            proof {
                assert(lines_view(lines@).push(current@).drop_last() == lines_view(
                    prev_lines,
                ).push(prev_current));
                assert(formatted@.take(i + 1) == formatted@.take(i as int).push('\n'));
                assert(join_lines(lines_view(lines@).push(current@)) == join_lines(
                    lines_view(prev_lines).push(prev_current),
                ) + seq!['\n'] + Seq::<char>::empty());
            }
        } else {
            crate::text::push_char(&mut current, c);
            proof {
                lemma_join_push_char(lines_view(prev_lines), prev_current, c);
                assert(formatted@.take(i + 1) == formatted@.take(i as int).push(c));
            }
        }
    }
    let ghost prev_lines = lines@;
    let ghost last = current@;
    lines.push(current);
    assert(lines_view(lines@) == lines_view(prev_lines).push(last));
    assert(formatted@.take(n as int) == formatted@);
    proof {
        let lv = lines_view(lines@);
        assert forall|i: int| 0 <= i < lv.len() implies !(#[trigger] lv[i]).contains('\n') by {
            assert(lv[i] == lines@[i]@);
        }
        lemma_line_count(lv);
    }
    lines
}

/// The category that the relay gives a record's level.
pub open spec fn web_level_for(l: Level) -> WebLogLevel {
    match l {
        Level::Error => WebLogLevel::Error,
        Level::Warn => WebLogLevel::Warn,
        Level::Info => WebLogLevel::Info,
        Level::Debug => WebLogLevel::Debug,
        Level::Trace => WebLogLevel::Trace,
    }
}

/// The lower-case level names that payloads carry parse back to the
/// record's level.
pub proof fn lemma_level_key_parses(l: Level)
    ensures
        web_level_of(level_key(l)) == web_level_for(l),
{
    reveal_strlit("ERROR");
    reveal_strlit("WARN");
    reveal_strlit("INFO");
    reveal_strlit("DEBUG");
    reveal_strlit("TRACE");
    reveal_strlit("error");
    reveal_strlit("warn");
    reveal_strlit("warning");
    reveal_strlit("info");
    reveal_strlit("debug");
    reveal_strlit("trace");
    let k = level_key(l);
    let lower = match l {
        Level::Error => "error"@,
        Level::Warn => "warn"@,
        Level::Info => "info"@,
        Level::Debug => "debug"@,
        Level::Trace => "trace"@,
    };
    assert(k =~= lower);
    assert(trim_seq(k) == k) by {
        assert(!crate::text::is_white_space(k[0]));
        assert(!crate::text::is_white_space(k.last()));
        assert(crate::text::trim_start_seq(k) == k);
    }
    assert(ascii_lower(k) =~= k);
    assert("warning"@.len() == 7);
}

/// Six hash characters.
proof fn lemma_six_hashtags()
    ensures
        hashtags(6) == "######"@,
{
    reveal_strlit("#");
    reveal_strlit("######");
    reveal_with_fuel(repeat_seq, 7);
    assert(hashtags(6) =~= "######"@);
}

/// Compact relay output equals the native compact output.
proof fn lemma_compact_matches(
    level: Level,
    target: Seq<char>,
    message: Seq<char>,
    file: Option<Seq<char>>,
    line: Option<u32>,
)
    requires
        trim_end_seq(message) == message,
        target == SUCCESS_TARGET@ || target == MESSAGE_TARGET@ ==> level == Level::Info,
    ensures
        crate::backend::compact_output(level, target, message) == relay_output(
            level_key(level),
            message,
            Some(target),
            file,
            line,
            false,
        ),
{
    lemma_level_key_parses(level);
    lemma_semantic_targets_differ();
    let relay = relay_output(level_key(level), message, Some(target), file, line, false);
    let native = crate::backend::compact_output(level, target, message);
    match level {
        Level::Info => {},
        _ => {
            assert(semantic_kind_of(Some(target)) is None);
        },
    }
    assert(native =~= relay);
}

/// The relay's error-like block is the native record block.
proof fn lemma_error_like_is_record_block(
    title: Seq<char>,
    c: Color,
    f: Seq<char>,
    l: Seq<char>,
    m: Seq<char>,
)
    ensures
        error_like_output(title, c, f, l, m) == crate::formatting::record_block(c, title, f, l, m),
{
    lemma_six_hashtags();
    assert(error_like_output(title, c, f, l, m) =~= crate::formatting::record_block(
        c,
        title,
        f,
        l,
        m,
    ));
}

/// The relay shows the same source path as the native logger for a file
/// with a non-empty path after `src/`.
proof fn lemma_relay_file(file: Option<Seq<char>>, target: Seq<char>)
    requires
        file matches Some(p) && after_src(p).len() > 0,
    ensures
        relay_file_of(file, Some(target)) == file_path_of(file),
{
    let p = file->0;
    assert(contains_seq(p, "src/"@));
}

/// Verbose relay output equals the native verbose output.
proof fn lemma_verbose_matches(
    level: Level,
    target: Seq<char>,
    message: Seq<char>,
    file: Option<Seq<char>>,
    line: Option<u32>,
)
    requires
        trim_end_seq(message) == message,
        target != SUCCESS_TARGET@,
        target != MESSAGE_TARGET@,
        level != Level::Info ==> (file matches Some(p) && after_src(p).len() > 0),
    ensures
        crate::backend::verbose_output(level, target, message, file_path_of(file), line_text(line))
            == relay_output(level_key(level), message, Some(target), file, line, true),
{
    lemma_level_key_parses(level);
    let relay = relay_output(level_key(level), message, Some(target), file, line, true);
    let f = file_path_of(file);
    let l = line_text(line);
    let native = crate::backend::verbose_output(level, target, message, f, l);
    assert(semantic_kind_of(Some(target)) is None);
    if level == Level::Info {
        assert(native =~= relay);
    } else {
        lemma_relay_file(file, target);
        assert(relay_file_of(file, Some(target)) == f);
        if level == Level::Error {
            lemma_error_like_is_record_block("Error"@, Color::Red, f, l, message);
            assert(relay == error_like_output("Error"@, Color::Red, f, l, message));
        } else if level == Level::Debug {
            lemma_error_like_is_record_block("Debug"@, Color::Yellow, f, l, message);
            assert(relay == error_like_output("Debug"@, Color::Yellow, f, l, message));
        } else {
            assert(native =~= relay);
        }
    }
}

/// The relay prints a record the way the native logger does: formatting the
/// payload made from a record gives the text the native logger prints for
/// it. This holds for messages without trailing whitespace, for semantic
/// targets only on compact info records, for records not from a crates
/// registry index, and, for verbose records above info, for source files
/// with a non-empty path after `src/`.
pub proof fn lemma_relay_matches_native(
    verbose: bool,
    level: Level,
    target: Seq<char>,
    message: Seq<char>,
    file: Option<Seq<char>>,
    line: Option<u32>,
)
    requires
        trim_end_seq(message) == message,
        target == SUCCESS_TARGET@ || target == MESSAGE_TARGET@ ==> level == Level::Info && !verbose,
        !contains_seq(file_path_of(file), "index.crates"@),
        verbose && level != Level::Info ==> (file matches Some(p) && after_src(p).len() > 0),
    ensures
        record_output(verbose, level, target, message, file, line) == Some(
            relay_output(level_key(level), message, Some(target), file, line, verbose),
        ),
{
    if !verbose {
        lemma_compact_matches(level, target, message, file, line);
    } else {
        lemma_verbose_matches(level, target, message, file, line);
    }
}

/// Relay formatting ignores how a payload spells its level and any
/// whitespace its message gains at the end: adding whitespace around the
/// level, changing its ASCII case, or adding trailing whitespace to the
/// message leaves the formatted text as it is, compact or verbose.
pub proof fn lemma_relay_ignores_level_spelling_and_trailing_space(
    level: Seq<char>,
    level_variant: Seq<char>,
    before: Seq<char>,
    after: Seq<char>,
    message: Seq<char>,
    trailing: Seq<char>,
    target: Option<Seq<char>>,
    file: Option<Seq<char>>,
    line: Option<u32>,
    verbose: bool,
)
    requires
        ascii_lower(level_variant) == ascii_lower(level),
        all_white_space(before),
        all_white_space(after),
        all_white_space(trailing),
    ensures
        relay_output(before + level_variant + after, message + trailing, target, file, line, verbose)
            == relay_output(level, message, target, file, line, verbose),
{
    lemma_trim_ignores_surrounding_space(before, level_variant, after);
    lemma_trim_keeps_case_equality(level_variant, level);
    lemma_trim_end_ignores_added_space(message, trailing);
    assert(web_level_of(before + level_variant + after) == web_level_of(level));
}

/// A compact relay line for a payload of any level but info, and with no
/// semantic target, is the level's color, the level's upper-case tag, the
/// message without its trailing whitespace, and the reset sequence: red
/// `[ERROR]`, yellow `[WARN]`, blue `[DEBUG]`, magenta `[TRACE]`.
pub proof fn lemma_relay_compact_line_names_its_level(
    level: Seq<char>,
    message: Seq<char>,
    target: Option<Seq<char>>,
    file: Option<Seq<char>>,
    line: Option<u32>,
)
    requires
        web_level_of(level) != WebLogLevel::Info,
        semantic_kind_of(target) is None,
    ensures
        relay_output(level, message, target, file, line, false) == match web_level_of(level) {
            WebLogLevel::Error => "\x1b[31m[ERROR] "@ + trim_end_seq(message) + "\x1b[0m"@,
            WebLogLevel::Warn => "\x1b[33m[WARN] "@ + trim_end_seq(message) + "\x1b[0m"@,
            WebLogLevel::Debug => "\x1b[34m[DEBUG] "@ + trim_end_seq(message) + "\x1b[0m"@,
            _ => "\x1b[35m[TRACE] "@ + trim_end_seq(message) + "\x1b[0m"@,
        },
{
    reveal_strlit("\x1b[31m[ERROR] ");
    reveal_strlit("\x1b[33m[WARN] ");
    reveal_strlit("\x1b[34m[DEBUG] ");
    reveal_strlit("\x1b[35m[TRACE] ");
    reveal_strlit("\x1b[0m");
    reveal_strlit("\x1b[31m");
    reveal_strlit("\x1b[33m");
    reveal_strlit("\x1b[34m");
    reveal_strlit("\x1b[35m");
    reveal_strlit("[ERROR] ");
    reveal_strlit("[WARN] ");
    reveal_strlit("[DEBUG] ");
    reveal_strlit("[TRACE] ");
    let m = trim_end_seq(message);
    let out = relay_output(level, message, target, file, line, false);
    match web_level_of(level) {
        WebLogLevel::Error => {
            assert(out =~= "\x1b[31m[ERROR] "@ + m + "\x1b[0m"@);
        },
        WebLogLevel::Warn => {
            assert(out =~= "\x1b[33m[WARN] "@ + m + "\x1b[0m"@);
        },
        WebLogLevel::Debug => {
            assert(out =~= "\x1b[34m[DEBUG] "@ + m + "\x1b[0m"@);
        },
        _ => {
            assert(out =~= "\x1b[35m[TRACE] "@ + m + "\x1b[0m"@);
        },
    }
}

} // verus!
