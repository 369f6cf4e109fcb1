//! Output formatting for log records: banners, source paths and the
//! verbose error and debug blocks.

use vstd::prelude::*;
use crate::color::{Color, ansi_code, colored, colorize};
use crate::json::JsonValue;
use crate::backend::{LogRecord, opt_view};
use crate::redaction::{sanitize_header_value, sensitive_header, hidden_text};
use axum::http::{HeaderMap, HeaderValue};
use crate::text::{
    chars_of, contains_seq, decimal, decimal_string, find_chars, is_first_occurrence,
    lemma_first_occurrence_unique, repeat_seq, repeat_str, suffix_string,
};

verus! {

/// `n` hash characters, none when `n` is not positive.
pub open spec fn hashtags(n: int) -> Seq<char> {
    repeat_seq("#"@, if n > 0 { n as nat } else { 0 })
}

/// `n` two-space indentation steps, none when `n` is not positive.
pub open spec fn spaces(n: int) -> Seq<char> {
    repeat_seq("  "@, if n > 0 { n as nat } else { 0 })
}

/// The part of `path` after its first `src/`, or nothing when `path` holds no `src/`.
pub open spec fn after_src(path: Seq<char>) -> Seq<char> {
    if contains_seq(path, "src/"@) {
        let i = choose|i: int| is_first_occurrence(path, "src/"@, i);
        path.skip(i + "src/"@.len())
    } else {
        Seq::empty()
    }
}

/// The source path that log output shows for an optional file path.
pub open spec fn file_path_of(path: Option<Seq<char>>) -> Seq<char> {
    match path {
        Some(p) => after_src(p),
        None => Seq::empty(),
    }
}

/// The line number text of an optional line: its decimal digits, or nothing.
pub open spec fn line_text(line: Option<u32>) -> Seq<char> {
    match line {
        Some(l) => decimal(l as nat),
        None => Seq::empty(),
    }
}

/// A heading: the title between two runs of six hash characters.
pub open spec fn heading(title: Seq<char>) -> Seq<char> {
    hashtags(6) + " "@ + title + " "@ + hashtags(6)
}

/// A banner: a heading on a line of its own, with a line break before and after.
pub open spec fn banner(title: Seq<char>) -> Seq<char> {
    "\n"@ + heading(title) + "\n"@
}

/// The verbose block for an error or debug record: a colored heading, the
/// file and line, a blank line, and the message.
pub open spec fn record_block(
    c: Color,
    title: Seq<char>,
    file: Seq<char>,
    line: Seq<char>,
    message: Seq<char>,
) -> Seq<char> {
    "\n"@ + colored(c, heading(title)) + "\n"@ + colored(c, "File: "@ + file) + "\n"@ + colored(
        c,
        "Line Number: "@ + line,
    ) + "\n"@ + "\n"@ + colored(c, message)
}

/// A string of `level` `#` characters, used for banner headings.
pub fn get_hashtags(level: i8) -> (res: String)
    ensures
        res@ == hashtags(level as int),
{
    let n: usize = if level > 0 {
        level as usize
    } else {
        0
    };
    repeat_str("#", n)
}

/// An indentation of `level` steps of two spaces, used for nested JSON output.
pub fn get_spaces(level: i8) -> (res: String)
    ensures
        res@ == spaces(level as int),
{
    let n: usize = if level > 0 {
        level as usize
    } else {
        0
    };
    repeat_str("  ", n)
}

/// The part of `path` after its first `src/`; empty when `path` is `None`
/// or holds no `src/`.
pub fn extract_after_src(path: Option<&str>) -> (res: String)
    ensures
        res@ == file_path_of(
            match path {
                Some(p) => Some(p@),
                None => None,
            },
        ),
{
    match path {
        Some(p) => {
            let cs = chars_of(p);
            let pat = chars_of("src/");
            let n = cs.len();
            match find_chars(cs.as_slice(), pat.as_slice()) {
                Some(i) => {
                    proof {
                        let j = choose|j: int| is_first_occurrence(p@, "src/"@, j);
                        lemma_first_occurrence_unique(p@, "src/"@, i as int, j);
                    }
                    suffix_string(p, i + pat.len())
                },
                None => String::new(),
            }
        },
        None => String::new(),
    }
}

/// The heading text: `title` between two runs of six hash characters.
pub fn heading_string(title: &str) -> (res: String)
    ensures
        res@ == heading(title@),
{
    let hashtags = get_hashtags(6);
    let mut res = String::new();
    res.append(hashtags.as_str());
    res.append(" ");
    res.append(title);
    res.append(" ");
    res.append(hashtags.as_str());
    res
}

/// The banner text: the heading of `title` with a line break before and after.
pub fn banner_string(title: &str) -> (res: String)
    ensures
        res@ == banner(title@),
{
    let h = heading_string(title);
    let mut res = String::new();
    res.append("\n");
    res.append(h.as_str());
    res.append("\n");
    res
}

/// The verbose block for an error or debug record.
pub fn record_block_string(
    c: Color,
    title: &str,
    file: &str,
    line: &str,
    message: &str,
) -> (res: String)
    ensures
        res@ == record_block(c, title@, file@, line@, message@),
{
    let header = colorize(heading_string(title).as_str(), c);
    let mut file_line = String::new();
    file_line.append("File: ");
    file_line.append(file);
    let mut line_line = String::new();
    line_line.append("Line Number: ");
    line_line.append(line);
    let mut res = String::new();
    res.append("\n");
    res.append(header.as_str());
    res.append("\n");
    res.append(colorize(file_line.as_str(), c).as_str());
    res.append("\n");
    res.append(colorize(line_line.as_str(), c).as_str());
    res.append("\n");
    res.append("\n");
    res.append(colorize(message, c).as_str());
    res
}

/// The line number text of an optional line.
pub fn line_number_string(line: Option<u32>) -> (res: String)
    ensures
        res@ == line_text(line),
{
    match line {
        Some(l) => decimal_string(l as u128),
        None => String::new(),
    }
}

/// The verbose block for a record in color `c` under heading `title`.
fn record_block_of(record: &LogRecord, c: Color, title: &str) -> (res: String)
    ensures
        res@ == record_block(
            c,
            title@,
            file_path_of(opt_view(record.file)),
            line_text(record.line),
            record.message@,
        ),
{
    let file_path = match &record.file {
        Some(f) => extract_after_src(Some(f.as_str())),
        None => extract_after_src(None),
    };
    let line_number = line_number_string(record.line);
    record_block_string(c, title, file_path.as_str(), line_number.as_str(), record.message.as_str())
}

/// The verbose error block for a record: red heading, file path, line
/// number, and message.
pub fn log_error(record: &LogRecord) -> (res: String)
    ensures
        res@ == record_block(
            Color::Red,
            "Error"@,
            file_path_of(opt_view(record.file)),
            line_text(record.line),
            record.message@,
        ),
{
    record_block_of(record, Color::Red, "Error")
}

/// The verbose debug block for a record: yellow heading, file path, line
/// number, and message.
pub fn log_debug(record: &LogRecord) -> (res: String)
    ensures
        res@ == record_block(
            Color::Yellow,
            "Debug"@,
            file_path_of(opt_view(record.file)),
            line_text(record.line),
            record.message@,
        ),
{
    record_block_of(record, Color::Yellow, "Debug")
}

/// Printing `v` at nesting `level` keeps every nesting level it computes
/// within `i8`, printed as a whole value (`as_value` false) or as an object
/// entry's value (`as_value` true). A non-empty object computes `level + 1`
/// for its entries; an entry's nested object `level + 2`; an entry's array
/// `level + 1` and its elements `level + 3`; a non-empty array `level + 2`
/// for its elements.
pub open spec fn fits_in_i8(v: JsonValue, level: int, as_value: bool) -> bool
    decreases v, if as_value {
        1nat
    } else {
        0nat
    },
{
    if as_value {
        match v {
            JsonValue::Array(items) => items@.len() == 0 || (level + 3 <= 127 && forall|i: int|
                0 <= i < items@.len() ==> fits_in_i8(#[trigger] items@[i], level + 3, false)),
            JsonValue::Object(_) => level + 2 <= 127 && fits_in_i8(v, level + 2, false),
            _ => true,
        }
    } else {
        match v {
            JsonValue::Array(items) => items@.len() == 0 || (level + 2 <= 127 && forall|i: int|
                0 <= i < items@.len() ==> fits_in_i8(#[trigger] items@[i], level + 2, false)),
            JsonValue::Object(entries) => entries@.len() == 0 || (level + 1 <= 127 && forall|i: int|
                0 <= i < entries@.len() ==> fits_in_i8((#[trigger] entries@[i]).1, level, true)),
            _ => true,
        }
    }
}

/// Printing `v` at nesting `level` stays within `i8`.
pub open spec fn json_fits(v: JsonValue, level: int) -> bool {
    fits_in_i8(v, level, false)
}

/// Printing `value` as an object entry's value at nesting `level` stays within `i8`.
pub open spec fn value_fits(value: JsonValue, level: int) -> bool {
    fits_in_i8(value, level, true)
}

/// Printing an array at nesting `level` stays within `i8`.
pub open spec fn array_fits(items: Seq<JsonValue>, level: int) -> bool {
    items.len() == 0 || (level + 2 <= 127 && forall|i: int|
        0 <= i < items.len() ==> fits_in_i8(#[trigger] items[i], level + 2, false))
}

/// The printed text of a scalar JSON value: `null`, `true`, `false`, or
/// the number's text.
pub open spec fn scalar_text(v: JsonValue) -> Seq<char> {
    match v {
        JsonValue::Null => "null"@,
        JsonValue::Bool(b) => if b {
            "true"@
        } else {
            "false"@
        },
        JsonValue::Number(t) => t@,
        _ => Seq::empty(),
    }
}

/// The pretty-printed text of `v` at nesting `level`: objects as indented
/// `key: value` lines with cyan keys, green strings and magenta scalars,
/// arrays through `array_text`; braces around the top-level object only;
/// nothing for a scalar.
pub open spec fn json_text(v: JsonValue, level: int) -> Seq<char>
    decreases v, 0nat,
{
    match v {
        JsonValue::Array(items) => array_text(items@, level),
        JsonValue::Object(entries) => {
            let open = if level == 0 {
                "{"@ + "\n"@
            } else {
                Seq::empty()
            };
            let close = if level == 0 {
                "}"@ + "\n"@
            } else {
                Seq::empty()
            };
            open + entries_text(entries@, level, entries@.len()) + close
        },
        _ => Seq::empty(),
    }
}

/// The printed lines of the first `n` object entries at nesting `level`.
pub open spec fn entries_text(entries: Seq<(String, JsonValue)>, level: int, n: nat) -> Seq<char>
    decreases entries, n,
{
    if n == 0 || n > entries.len() {
        Seq::empty()
    } else {
        entries_text(entries, level, (n - 1) as nat) + entry_text(
            entries[n - 1].0@,
            entries[n - 1].1,
            level,
        )
    }
}

/// The printed line of one object entry at nesting `level`: the indented
/// cyan key, then the value.
pub open spec fn entry_text(key: Seq<char>, value: JsonValue, level: int) -> Seq<char>
    decreases value, 1nat,
{
    let value_text = match value {
        JsonValue::Array(items) => array_text(items@, level + 1),
        JsonValue::String(s) => colored(Color::Green, "\""@ + s@ + "\""@) + ","@ + "\n"@,
        JsonValue::Object(_) => "{"@ + "\n"@ + json_text(value, level + 2) + spaces(level + 1)
            + "},"@ + "\n"@,
        _ => colored(Color::Magenta, scalar_text(value)) + ","@ + "\n"@,
    };
    spaces(level + 1) + colored(Color::Cyan, key) + ": "@ + value_text
}

/// The printed text of an array at nesting `level`: `[],` when empty,
/// otherwise each element in braces between `[` and `]`.
pub open spec fn array_text(items: Seq<JsonValue>, level: int) -> Seq<char>
    decreases items, items.len() + 1,
{
    if items.len() == 0 {
        "[],"@ + "\n"@
    } else {
        let lead = if level > 0 {
            "\n"@ + spaces(level)
        } else {
            Seq::empty()
        };
        let tail_indent = if level > 0 {
            spaces(level)
        } else {
            Seq::empty()
        };
        let close = if level == 0 {
            "]"@ + "\n"@
        } else {
            "],"@ + "\n"@
        };
        lead + "["@ + "\n"@ + items_text(items, level, items.len()) + tail_indent + close
    }
}

/// The printed text of the first `n` array elements at nesting `level`.
pub open spec fn items_text(items: Seq<JsonValue>, level: int, n: nat) -> Seq<char>
    decreases items, n,
{
    if n == 0 || n > items.len() {
        Seq::empty()
    } else {
        items_text(items, level, (n - 1) as nat) + item_text(items, level, (n - 1) as nat)
    }
}

/// The printed text of array element `i` at nesting `level`: the element
/// between indented braces, the closing brace followed by a comma unless
/// it is the last element.
pub open spec fn item_text(items: Seq<JsonValue>, level: int, i: nat) -> Seq<char>
    decreases items, i,
{
    if i >= items.len() {
        Seq::empty()
    } else {
        let end = if i + 1 == items.len() {
            "}"@ + "\n"@
        } else {
            "},"@ + "\n"@
        };
        spaces(level + 1) + "{"@ + "\n"@ + json_text(items[i as int], level + 2) + spaces(level + 1)
            + end
    }
}

/// Each value of a printable non-empty object prints within `i8`.
proof fn lemma_entry_fits(entries: Vec<(String, JsonValue)>, level: int, k: int)
    requires
        json_fits(JsonValue::Object(entries), level),
        0 <= k < entries@.len(),
    ensures
        level + 1 <= 127,
        value_fits(entries@[k].1, level),
{
    let v = JsonValue::Object(entries);
    assert(v->Object_0 == entries);
    assert(fits_in_i8(v, level, false));
    assert(level + 1 <= 127);
    assert(forall|i: int| 0 <= i < entries@.len() ==> fits_in_i8((#[trigger] entries@[i]).1, level, true));
    assert(fits_in_i8(entries@[k].1, level, true));
}

/// Each element of a printable non-empty array prints within `i8`.
proof fn lemma_item_fits(items: Seq<JsonValue>, level: int, k: int)
    requires
        array_fits(items, level),
        0 <= k < items.len(),
    ensures
        level + 2 <= 127,
        json_fits(items[k], level + 2),
{
}

/// Appends the printed text of a scalar value.
fn write_scalar(out: &mut String, v: &JsonValue)
    ensures
        final(out)@ == old(out)@ + scalar_text(*v),
{
    match v {
        JsonValue::Null => out.append("null"),
        JsonValue::Bool(b) => if *b {
            out.append("true")
        } else {
            out.append("false")
        },
        JsonValue::Number(t) => out.append(t.as_str()),
        _ => {},
    }
}

/// Appends the printed text of a JSON value at nesting `level`.
#[verifier::rlimit(60)]
fn write_json(out: &mut String, json: &JsonValue, level: i8)
    requires
        json_fits(*json, level as int),
    ensures
        final(out)@ == old(out)@ + json_text(*json, level as int),
    decreases json, 0nat,
{
    match json {
        JsonValue::Array(items) => {
            write_array(out, items, level);
        },
        JsonValue::Object(entries) => {
            let ghost start = out@;
            if level == 0 {
                out.append("{");
                out.append("\n");
            }
            let ghost body_start = out@;
            let n = entries.len();
            for i in 0..n
                invariant
                    n == entries@.len(),
                    out@ == body_start + entries_text(entries@, level as int, i as nat),
                    json_fits(*json, level as int),
                    *json == JsonValue::Object(*entries),
            {
                proof {
                    lemma_entry_fits(*entries, level as int, i as int);
                    assert(decreases_to!(*json => json->Object_0));
                    assert(decreases_to!(entries => entries[i as int]));
                }
                write_entry(out, &entries[i], level);
                assert(out@ =~= body_start + entries_text(entries@, level as int, (i + 1) as nat));
            }
            if level == 0 {
                out.append("}");
                out.append("\n");
            }
            assert(out@ =~= start + json_text(*json, level as int));
        },
        _ => {},
    }
}

/// Appends the printed line of one object entry at nesting `level`.
#[verifier::rlimit(60)]
fn write_entry(out: &mut String, entry: &(String, JsonValue), level: i8)
    requires
        level + 1 <= 127,
        value_fits(entry.1, level as int),
    ensures
        final(out)@ == old(out)@ + entry_text(entry.0@, entry.1, level as int),
    decreases entry, 0nat,
{
    let ghost start = out@;
    out.append(get_spaces(level + 1).as_str());
    out.append(colorize(entry.0.as_str(), Color::Cyan).as_str());
    out.append(": ");
    match &entry.1 {
        JsonValue::Array(values) => {
            write_array(out, values, level + 1);
            assert(out@ =~= start + entry_text(entry.0@, entry.1, level as int));
        },
        JsonValue::String(value) => {
            let mut quoted = String::new();
            quoted.append("\"");
            quoted.append(value.as_str());
            quoted.append("\"");
            out.append(colorize(quoted.as_str(), Color::Green).as_str());
            out.append(",");
            out.append("\n");
        },
        JsonValue::Object(_) => {
            out.append("{");
            out.append("\n");
            write_json(out, &entry.1, level + 2);
            out.append(get_spaces(level + 1).as_str());
            out.append("},");
            out.append("\n");
        },
        _ => {
            let mut text = String::new();
            write_scalar(&mut text, &entry.1);
            out.append(colorize(text.as_str(), Color::Magenta).as_str());
            out.append(",");
            out.append("\n");
        },
    }
    assert(out@ =~= start + entry_text(entry.0@, entry.1, level as int));
}

/// Appends the printed text of array element `i` at nesting `level`.
#[verifier::rlimit(60)]
fn write_item(out: &mut String, values: &Vec<JsonValue>, i: usize, level: i8)
    requires
        i < values@.len(),
        level + 2 <= 127,
        json_fits(values@[i as int], level + 2),
    ensures
        final(out)@ == old(out)@ + item_text(values@, level as int, i as nat),
    decreases values, i,
{
    let ghost start = out@;
    let n = values.len();
    out.append(get_spaces(level + 1).as_str());
    out.append("{");
    out.append("\n");
    write_json(out, &values[i], level + 2);
    out.append(get_spaces(level + 1).as_str());
    if i == n - 1 {
        out.append("}");
        out.append("\n");
    } else {
        out.append("},");
        out.append("\n");
    }
    assert(out@ =~= start + item_text(values@, level as int, i as nat));
}

/// Appends the printed text of an array at nesting `level`.
#[verifier::rlimit(60)]
fn write_array(out: &mut String, values: &Vec<JsonValue>, level: i8)
    requires
        array_fits(values@, level as int),
    ensures
        final(out)@ == old(out)@ + array_text(values@, level as int),
    decreases values, values@.len() + 1,
{
    let n = values.len();
    if n == 0 {
        out.append("[],");
        out.append("\n");
        return;
    }
    let ghost start = out@;
    if level > 0 {
        out.append("\n");
        out.append(get_spaces(level).as_str());
    }
    out.append("[");
    out.append("\n");
    let ghost items_start = out@;
    for i in 0..n
        invariant
            n == values@.len(),
            out@ == items_start + items_text(values@, level as int, i as nat),
            array_fits(values@, level as int),
    {
        proof {
            lemma_item_fits(values@, level as int, i as int);
        }
        write_item(out, values, i, level);
        assert(out@ =~= items_start + items_text(values@, level as int, (i + 1) as nat));
    }
    if level > 0 {
        out.append(get_spaces(level).as_str());
    }
    if level == 0 {
        out.append("]");
        out.append("\n");
    } else {
        out.append("],");
        out.append("\n");
    }
    assert(out@ =~= start + array_text(values@, level as int));
}

/// The pretty-printed text of a JSON value at nesting `level`.
pub fn log_json(json: &JsonValue, level: i8) -> (res: String)
    requires
        json_fits(*json, level as int),
    ensures
        res@ == json_text(*json, level as int),
{
    let mut out = String::new();
    write_json(&mut out, json, level);
    out
}

/// The pretty-printed text of a JSON array at nesting `level`.
pub fn log_array(values: &Vec<JsonValue>, level: i8) -> (res: String)
    requires
        array_fits(values@, level as int),
    ensures
        res@ == array_text(values@, level as int),
{
    let mut out = String::new();
    write_array(&mut out, values, level);
    out
}

#[verifier::external_type_specification]
#[verifier::external_body]
#[verifier::reject_recursive_types(T)]
pub struct ExHeaderMap<T>(HeaderMap<T>);

#[verifier::external_type_specification]
#[verifier::external_body]
pub struct ExHeaderValue(HeaderValue);

/// What a header map holds, in its iteration order: each name (in its
/// lower-case text form) with the value's text, or `None` for a value that
/// is not visible ASCII; a name appears once per value.
pub uninterp spec fn spec_header_entries(headers: HeaderMap) -> Seq<(Seq<char>, Option<Seq<char>>)>;

/// The text forms of a header entry.
pub open spec fn header_entry_view(e: (String, Option<String>)) -> (Seq<char>, Option<Seq<char>>) {
    (e.0@, opt_view(e.1))
}

/// `HeaderMap::iter`, each entry mapped to the name's `as_str` and the
/// value's `to_str` (`None` where that reports an error).
#[verifier::external_body]
fn header_entries(headers: &HeaderMap) -> (res: Vec<(String, Option<String>)>)
    ensures
        res@.map_values(|e: (String, Option<String>)| header_entry_view(e)) == spec_header_entries(
            *headers,
        ),
{
    headers.iter().map(|(k, v)| (k.as_str().to_string(), v.to_str().ok().map(|t| t.to_string()))).collect()
}

/// The reason phrase that `StatusCode`'s `Display` shows after the code:
/// the canonical reason, or `<unknown status code>` when it has none.
pub uninterp spec fn spec_status_reason(code: u16) -> Seq<char>;

/// `<StatusCode as Display>::fmt` on `StatusCode::from_u16(code)`: the
/// code's digits, a space, and the reason phrase.
#[verifier::external_body]
fn status_code_text(code: u16) -> (res: String)
    requires
        100 <= code <= 999,
    ensures
        res@ == decimal(code as nat) + " "@ + spec_status_reason(code),
{
    axum::http::StatusCode::from_u16(code).unwrap().to_string()
}

/// The lower-case hexadecimal digit for `d` (`0 <= d < 16`).
pub open spec fn hex_digit(d: nat) -> char {
    if d < 10 {
        ((48 + d) as u32) as char
    } else {
        ((87 + d) as u32) as char
    }
}

/// The last `width` lower-case hexadecimal digits of `n`, most significant first.
pub open spec fn hex_text(n: nat, width: nat) -> Seq<char>
    decreases width,
{
    if width == 0 {
        Seq::empty()
    } else {
        hex_text(n / 16, (width - 1) as nat).push(hex_digit(n % 16))
    }
}

/// The hyphenated lower-case form of a UUID whose 128-bit big-endian value is `id`.
pub open spec fn uuid_text(id: u128) -> Seq<char> {
    let h = hex_text(id as nat, 32);
    h.subrange(0, 8) + "-"@ + h.subrange(8, 12) + "-"@ + h.subrange(12, 16) + "-"@ + h.subrange(
        16,
        20,
    ) + "-"@ + h.subrange(20, 32)
}

/// `<Uuid as Display>::fmt` on `Uuid::from_u128(id)`: the hyphenated
/// lower-case hexadecimal form.
#[verifier::external_body]
fn uuid_string(id: u128) -> (res: String)
    ensures
        res@ == uuid_text(id),
{
    uuid::Uuid::from_u128(id).to_string()
}

/// Broad classification of an HTTP status code for color selection.
#[derive(Clone, Copy, Debug, PartialEq, Eq, Structural)]
pub enum StatusClass {
    /// A 2xx successful response.
    Success,
    /// A 4xx client error response.
    ClientError,
    /// A 5xx server error response.
    ServerError,
    /// Any other response class.
    Other,
}

/// The class of a status code.
pub open spec fn status_class(code: u16) -> StatusClass {
    if 200 <= code < 300 {
        StatusClass::Success
    } else if 400 <= code < 500 {
        StatusClass::ClientError
    } else if 500 <= code < 600 {
        StatusClass::ServerError
    } else {
        StatusClass::Other
    }
}

/// The color in which a status class is shown.
pub open spec fn status_color(class: StatusClass) -> Color {
    match class {
        StatusClass::Success => Color::Green,
        StatusClass::ClientError => Color::Yellow,
        StatusClass::ServerError => Color::Red,
        StatusClass::Other => Color::Magenta,
    }
}

/// Maps an HTTP status code to its class.
pub fn classify_status(status_code: u16) -> (res: StatusClass)
    ensures
        res == status_class(status_code),
{
    if 200 <= status_code && status_code < 300 {
        StatusClass::Success
    } else if 400 <= status_code && status_code < 500 {
        StatusClass::ClientError
    } else if 500 <= status_code && status_code < 600 {
        StatusClass::ServerError
    } else {
        StatusClass::Other
    }
}

/// The color in which a status class is shown.
fn status_class_color(class: StatusClass) -> (res: Color)
    ensures
        res == status_color(class),
{
    match class {
        StatusClass::Success => Color::Green,
        StatusClass::ClientError => Color::Yellow,
        StatusClass::ServerError => Color::Red,
        StatusClass::Other => Color::Magenta,
    }
}

/// The printed text of a magenta heading between two runs of `hashtags`.
pub open spec fn header_text(header: Seq<char>, hashtags: Seq<char>) -> Seq<char> {
    colored(Color::Magenta, "\n"@ + hashtags + " "@ + header + " "@ + hashtags + "\n"@) + "\n"@
}

/// The printed text of a heading between two runs of `hashtags`.
pub fn log_header(header: &str, hashtags: &str) -> (res: String)
    ensures
        res@ == header_text(header@, hashtags@),
{
    let mut text = String::new();
    text.append("\n");
    text.append(hashtags);
    text.append(" ");
    text.append(header);
    text.append(" ");
    text.append(hashtags);
    text.append("\n");
    let mut res = colorize(text.as_str(), Color::Magenta);
    res.append("\n");
    res
}

/// The printed text of a first-level heading (six `#` characters).
pub fn log_h1(header: &str) -> (res: String)
    ensures
        res@ == header_text(header@, hashtags(6)),
{
    log_header(header, get_hashtags(6).as_str())
}

/// The printed text of a second-level heading (five `#` characters).
pub fn log_h2(header: &str) -> (res: String)
    ensures
        res@ == header_text(header@, hashtags(5)),
{
    log_header(header, get_hashtags(5).as_str())
}

/// The value a header shows: `(hidden)` for a sensitive name, the value's
/// text otherwise, and `<non-utf8>` for a value that has no text form.
pub open spec fn shown_header_value(name: Seq<char>, value: Option<Seq<char>>) -> Seq<char> {
    if sensitive_header(name) {
        hidden_text()
    } else {
        match value {
            Some(v) => v,
            None => "<non-utf8>"@,
        }
    }
}

/// The printed lines of the first `n` header entries: the cyan name, a
/// colon, and the shown value.
pub open spec fn headers_text(entries: Seq<(Seq<char>, Option<Seq<char>>)>, n: nat) -> Seq<char>
    decreases n,
{
    if n == 0 || n > entries.len() {
        Seq::empty()
    } else {
        headers_text(entries, (n - 1) as nat) + colored(Color::Cyan, entries[n - 1].0 + ": "@)
            + shown_header_value(entries[n - 1].0, entries[n - 1].1) + "\n"@
    }
}

/// The printed lines of all headers, sensitive values hidden.
pub fn log_headers(headers: &HeaderMap) -> (res: String)
    ensures
        res@ == headers_text(spec_header_entries(*headers), spec_header_entries(*headers).len()),
{
    let entries = header_entries(headers);
    let ghost es = spec_header_entries(*headers);
    let n = entries.len();
    let mut res = String::new();
    for i in 0..n
        invariant
            n == entries@.len(),
            es == entries@.map_values(|e: (String, Option<String>)| header_entry_view(e)),
            res@ == headers_text(es, i as nat),
    {
        let entry = &entries[i];
        assert(es[i as int] == header_entry_view(entries@[i as int]));
        let mut label = String::new();
        label.append(entry.0.as_str());
        label.append(": ");
        res.append(colorize(label.as_str(), Color::Cyan).as_str());
        let value: &str = match &entry.1 {
            Some(v) => v.as_str(),
            None => "<non-utf8>",
        };
        res.append(sanitize_header_value(entry.0.as_str(), value).as_str());
        res.append("\n");
        assert(res@ =~= headers_text(es, (i + 1) as nat));
    }
    res
}

/// The printed text of an optional body: a `Body` heading and the JSON.
pub open spec fn body_text(body: Option<JsonValue>) -> Seq<char> {
    match body {
        Some(b) => header_text("Body"@, hashtags(5)) + json_text(b, 0),
        None => Seq::empty(),
    }
}

/// The printed text of a verbose request log.
pub open spec fn request_text(
    id: u128,
    method: Seq<char>,
    route: Seq<char>,
    headers: HeaderMap,
    body: Option<JsonValue>,
) -> Seq<char> {
    let es = spec_header_entries(headers);
    header_text("Request"@, hashtags(6)) + colored(Color::Cyan, "Request ID: "@) + uuid_text(id)
        + "\n"@ + "\n"@ + colored(Color::Cyan, method + " "@) + route + "\n"@ + header_text(
        "Headers"@,
        hashtags(5),
    ) + headers_text(es, es.len()) + body_text(body)
}

/// The printed text of a verbose response log.
pub open spec fn response_text(
    id: u128,
    status_code: u16,
    duration_ms: u128,
    body: Option<JsonValue>,
) -> Seq<char> {
    header_text("Response"@, hashtags(6)) + colored(Color::Cyan, "Request ID: "@) + uuid_text(id)
        + "\n"@ + "\n"@ + colored(Color::Cyan, "Status Code: "@) + colored(
        status_color(status_class(status_code)),
        decimal(status_code as nat) + " "@ + spec_status_reason(status_code),
    ) + "\n"@ + colored(Color::Cyan, "Duration: "@) + colored(
        Color::Blue,
        decimal(duration_ms as nat) + " ms"@,
    ) + "\n"@ + body_text(body)
}

/// The printed line of a compact HTTP log: `[id] METHOD /path -> STATUS (duration ms)`.
pub open spec fn compact_http_text(
    id: u128,
    method: Seq<char>,
    route: Seq<char>,
    status_code: u16,
    duration_ms: u128,
) -> Seq<char> {
    colored(Color::Cyan, "["@ + uuid_text(id) + "] "@) + colored(
        Color::Blue,
        method + " "@ + route + " -> "@,
    ) + colored(
        status_color(status_class(status_code)),
        decimal(status_code as nat) + " "@ + spec_status_reason(status_code),
    ) + colored(Color::Blue, " ("@ + decimal(duration_ms as nat) + " ms)"@) + "\n"@
}

/// A body that prints without its nesting level overflowing.
pub open spec fn printable_body(body: Option<JsonValue>) -> bool {
    match body {
        Some(b) => json_fits(b, 0),
        None => true,
    }
}

/// The printed text of an optional body.
fn body_string(body: Option<&JsonValue>) -> (res: String)
    requires
        printable_body(
            match body {
                Some(b) => Some(*b),
                None => None,
            },
        ),
    ensures
        res@ == body_text(
            match body {
                Some(b) => Some(*b),
                None => None,
            },
        ),
{
    match body {
        Some(b) => {
            let mut res = log_h2("Body");
            res.append(log_json(b, 0).as_str());
            res
        },
        None => String::new(),
    }
}

/// The printed text of a verbose request log: id, method and route,
/// headers with sensitive values hidden, and the optional (redacted) body.
pub fn log_request(
    id: u128,
    method: &str,
    route: &str,
    headers: &HeaderMap,
    req_body: Option<&JsonValue>,
) -> (res: String)
    requires
        printable_body(
            match req_body {
                Some(b) => Some(*b),
                None => None,
            },
        ),
    ensures
        res@ == request_text(
            id,
            method@,
            route@,
            *headers,
            match req_body {
                Some(b) => Some(*b),
                None => None,
            },
        ),
{
    let mut res = log_h1("Request");
    res.append(colorize("Request ID: ", Color::Cyan).as_str());
    res.append(uuid_string(id).as_str());
    res.append("\n");
    res.append("\n");
    let mut method_text = String::new();
    method_text.append(method);
    method_text.append(" ");
    res.append(colorize(method_text.as_str(), Color::Cyan).as_str());
    res.append(route);
    res.append("\n");
    res.append(log_h2("Headers").as_str());
    res.append(log_headers(headers).as_str());
    res.append(body_string(req_body).as_str());
    res
}

/// The status code's text in its class's color.
fn status_string(status_code: u16) -> (res: String)
    requires
        100 <= status_code <= 999,
    ensures
        res@ == colored(
            status_color(status_class(status_code)),
            decimal(status_code as nat) + " "@ + spec_status_reason(status_code),
        ),
{
    let color = status_class_color(classify_status(status_code));
    colorize(status_code_text(status_code).as_str(), color)
}

/// The printed text of a verbose response log: id, status in its class's
/// color, duration, and the optional (redacted) body.
pub fn log_response(id: u128, status_code: u16, duration_ms: u128, res_body: Option<&JsonValue>) -> (res:
    String)
    requires
        100 <= status_code <= 999,
        printable_body(
            match res_body {
                Some(b) => Some(*b),
                None => None,
            },
        ),
    ensures
        res@ == response_text(
            id,
            status_code,
            duration_ms,
            match res_body {
                Some(b) => Some(*b),
                None => None,
            },
        ),
{
    let mut res = log_h1("Response");
    res.append(colorize("Request ID: ", Color::Cyan).as_str());
    res.append(uuid_string(id).as_str());
    res.append("\n");
    res.append("\n");
    res.append(colorize("Status Code: ", Color::Cyan).as_str());
    res.append(status_string(status_code).as_str());
    res.append("\n");
    res.append(colorize("Duration: ", Color::Cyan).as_str());
    let mut duration = decimal_string(duration_ms);
    duration.append(" ms");
    res.append(colorize(duration.as_str(), Color::Blue).as_str());
    res.append("\n");
    res.append(body_string(res_body).as_str());
    res
}

/// The printed line of a compact HTTP log.
pub fn log_compact_http(
    id: u128,
    method: &str,
    route: &str,
    status_code: u16,
    duration_ms: u128,
) -> (res: String)
    requires
        100 <= status_code <= 999,
    ensures
        res@ == compact_http_text(id, method@, route@, status_code, duration_ms),
{
    let mut id_text = String::new();
    id_text.append("[");
    id_text.append(uuid_string(id).as_str());
    id_text.append("] ");
    let mut res = colorize(id_text.as_str(), Color::Cyan);
    let mut request = String::new();
    request.append(method);
    request.append(" ");
    request.append(route);
    request.append(" -> ");
    res.append(colorize(request.as_str(), Color::Blue).as_str());
    res.append(status_string(status_code).as_str());
    let mut duration = String::new();
    duration.append(" (");
    duration.append(decimal_string(duration_ms).as_str());
    duration.append(" ms)");
    res.append(colorize(duration.as_str(), Color::Blue).as_str());
    res.append("\n");
    res
}

/// An object entry with a scalar value prints as the indented cyan key, a
/// colon, the value's JSON text in magenta and a comma: `null`, `true`
/// exactly for `true` and `false` exactly for `false`, or the number's text.
pub proof fn lemma_scalar_entry_text(key: Seq<char>, value: JsonValue, level: int)
    requires
        value is Null || value is Bool || value is Number,
    ensures
        entry_text(key, value, level) == spaces(level + 1) + "\x1b[36m"@ + key + "\x1b[0m: \x1b[35m"@
            + match value {
            JsonValue::Bool(b) => if b {
                "true"@
            } else {
                "false"@
            },
            JsonValue::Number(t) => t@,
            _ => "null"@,
        } + "\x1b[0m,\n"@,
{
    reveal_strlit("\x1b[36m");
    reveal_strlit("\x1b[35m");
    reveal_strlit("\x1b[0m");
    reveal_strlit("\x1b[0m: \x1b[35m");
    reveal_strlit("\x1b[0m,\n");
    reveal_strlit(": ");
    reveal_strlit(",");
    reveal_strlit("\n");
    reveal_strlit("true");
    reveal_strlit("false");
    reveal_strlit("null");
    let t = scalar_text(value);
    assert(entry_text(key, value, level) =~= spaces(level + 1) + "\x1b[36m"@ + key
        + "\x1b[0m: \x1b[35m"@ + t + "\x1b[0m,\n"@);
}

/// The magenta `Body` heading between runs of five hash characters.
proof fn lemma_body_heading()
    ensures
        header_text("Body"@, hashtags(5)) == "\x1b[35m\n##### Body #####\n\x1b[0m\n"@,
{
    reveal_strlit("\x1b[35m\n##### Body #####\n\x1b[0m\n");
    reveal_strlit("\x1b[35m");
    reveal_strlit("\x1b[0m");
    reveal_strlit("#");
    reveal_strlit("Body");
    reveal_strlit(" ");
    reveal_strlit("\n");
    reveal_with_fuel(repeat_seq, 6);
    assert(hashtags(5) =~= "#####"@) by {
        reveal_strlit("#####");
    }
    assert(header_text("Body"@, hashtags(5)) =~= "\x1b[35m\n##### Body #####\n\x1b[0m\n"@);
}

/// A response log with a body is the same log without one, followed by
/// the `Body` heading and the pretty-printed body; without a body the log
/// ends with the duration line.
pub proof fn lemma_response_body_follows(
    id: u128,
    status_code: u16,
    duration_ms: u128,
    body: JsonValue,
)
    ensures
        response_text(id, status_code, duration_ms, Some(body)) == response_text(
            id,
            status_code,
            duration_ms,
            None,
        ) + "\x1b[35m\n##### Body #####\n\x1b[0m\n"@ + json_text(body, 0),
        ({
            let r = response_text(id, status_code, duration_ms, None);
            let tail = "\x1b[34m"@ + decimal(duration_ms as nat) + " ms\x1b[0m\n"@;
            r.len() >= tail.len() && r.subrange(r.len() - tail.len(), r.len() as int) == tail
        }),
{
    lemma_body_heading();
    reveal_strlit("\x1b[34m");
    reveal_strlit("\x1b[0m");
    reveal_strlit(" ms");
    reveal_strlit(" ms\x1b[0m\n");
    reveal_strlit("\n");
    let with_body = response_text(id, status_code, duration_ms, Some(body));
    let without = response_text(id, status_code, duration_ms, None);
    assert(with_body =~= without + "\x1b[35m\n##### Body #####\n\x1b[0m\n"@ + json_text(body, 0));
    let tail = "\x1b[34m"@ + decimal(duration_ms as nat) + " ms\x1b[0m\n"@;
    let head = header_text("Response"@, hashtags(6)) + colored(Color::Cyan, "Request ID: "@)
        + uuid_text(id) + "\n"@ + "\n"@ + colored(Color::Cyan, "Status Code: "@) + colored(
        status_color(status_class(status_code)),
        decimal(status_code as nat) + " "@ + spec_status_reason(status_code),
    ) + "\n"@ + colored(Color::Cyan, "Duration: "@);
    assert(without =~= head + tail);
    assert(without.subrange(without.len() - tail.len(), without.len() as int) =~= tail);
}

/// A request log with a body is the same log without one, followed by the
/// `Body` heading and the pretty-printed body.
pub proof fn lemma_request_body_follows(
    id: u128,
    method: Seq<char>,
    route: Seq<char>,
    headers: HeaderMap,
    body: JsonValue,
)
    ensures
        request_text(id, method, route, headers, Some(body)) == request_text(
            id,
            method,
            route,
            headers,
            None,
        ) + "\x1b[35m\n##### Body #####\n\x1b[0m\n"@ + json_text(body, 0),
{
    lemma_body_heading();
    assert(request_text(id, method, route, headers, Some(body)) =~= request_text(
        id,
        method,
        route,
        headers,
        None,
    ) + "\x1b[35m\n##### Body #####\n\x1b[0m\n"@ + json_text(body, 0));
}

/// The status of an HTTP log is shown in green for 2xx codes, yellow for
/// 4xx, red for 5xx, and magenta for any other code.
pub proof fn lemma_status_colors(code: u16)
    ensures
        ansi_code(status_color(status_class(code))) == if 200 <= code < 300 {
            "\x1b[32m"@
        } else if 400 <= code < 500 {
            "\x1b[33m"@
        } else if 500 <= code < 600 {
            "\x1b[31m"@
        } else {
            "\x1b[35m"@
        },
{
}

} // verus!
