//! What the program logs: the configuration of its logger, the text of each log
//! line, the log targets, and the log messages that show clipboard text data.

use env_logger::fmt::style::{AnsiColor, Color, Style};
use vstd::prelude::*;

use crate::decimal::{decimal_text, push_decimal};
use crate::text::{chars_of, chars_start_with, is_prefix, join_lines, join_with, opt_string_view, push_char, push_chars, spec_lines};

verus! {

broadcast use vstd::string::group_string_axioms;

/// The severity of a log record, from the most to the least severe.
#[derive(Debug, Clone, Copy, PartialEq, Eq)]
pub enum LogLevel {
    Error,
    Warn,
    Info,
    Debug,
    Trace,
}

/// A maximal severity filter for log records.
#[derive(Debug, Clone, Copy, PartialEq, Eq)]
pub enum LevelFilter {
    Off,
    Error,
    Warn,
    Info,
    Debug,
    Trace,
}

/// How the logger is set up.
#[derive(Debug, Clone, Copy)]
pub struct LoggerConfig {
    /// The `strftime` format of the local time put in front of each line.
    pub timestamp_format: &'static str,
    /// Whether each line starts with the local time.
    pub with_timestamps: bool,
    /// The filter used unless the environment overrides it.
    pub default_filter: LevelFilter,
}

/// The setup of the logger, with or without timestamps: records up to `Info`,
/// unless the environment says otherwise, and times in ISO 8601 form with
/// milliseconds.
pub fn init_logger(with_timestamps: bool) -> (c: LoggerConfig)
    ensures
        c.timestamp_format@ == "%Y-%m-%dT%H:%M:%S.%3f"@,
        c.with_timestamps == with_timestamps,
        c.default_filter == LevelFilter::Info,
{
    LoggerConfig { timestamp_format: "%Y-%m-%dT%H:%M:%S.%3f", with_timestamps, default_filter: LevelFilter::Info }
}

/// The text that stands for a level in a log line, padded to five characters.
pub open spec fn spec_level_text(level: LogLevel) -> Seq<char> {
    match level {
        LogLevel::Trace => "TRACE"@,
        LogLevel::Debug => "DEBUG"@,
        LogLevel::Info => "INFO "@,
        LogLevel::Warn => "WARN "@,
        LogLevel::Error => "ERROR"@,
    }
}

/// The text that stands for `level` in a log line.
pub fn level_text(level: &LogLevel) -> (t: &'static str)
    ensures
        t@ == spec_level_text(*level),
{
    match level {
        LogLevel::Trace => "TRACE",
        LogLevel::Debug => "DEBUG",
        LogLevel::Info => "INFO ",
        LogLevel::Warn => "WARN ",
        LogLevel::Error => "ERROR",
    }
}

/// The ANSI foreground colors in which levels are shown.
#[derive(Debug, Clone, Copy, PartialEq, Eq)]
pub enum LevelColor {
    Magenta,
    Blue,
    Green,
    Yellow,
    Red,
}

/// The color in which `level` is shown.
pub open spec fn spec_level_style(level: LogLevel) -> LevelColor {
    match level {
        LogLevel::Trace => LevelColor::Magenta,
        LogLevel::Debug => LevelColor::Blue,
        LogLevel::Info => LevelColor::Green,
        LogLevel::Warn => LevelColor::Yellow,
        LogLevel::Error => LevelColor::Red,
    }
}

/// The color in which `level` is shown.
pub fn level_style(level: &LogLevel) -> (c: LevelColor)
    ensures
        c == spec_level_style(*level),
{
    match level {
        LogLevel::Trace => LevelColor::Magenta,
        LogLevel::Debug => LevelColor::Blue,
        LogLevel::Info => LevelColor::Green,
        LogLevel::Warn => LevelColor::Yellow,
        LogLevel::Error => LevelColor::Red,
    }
}

/// The escape sequence that sets the foreground color `c`: ESC, `[`, `3`, the
/// color's digit and `m`.
pub open spec fn ansi_fg_code(c: LevelColor) -> Seq<char> {
    let digit = match c {
        LevelColor::Red => '1',
        LevelColor::Green => '2',
        LevelColor::Yellow => '3',
        LevelColor::Blue => '4',
        LevelColor::Magenta => '5',
    };
    seq!['\x1b', '[', '3', digit, 'm']
}

/// The escape sequence that resets all styling: ESC, `[`, `0` and `m`.
pub open spec fn ansi_reset_code() -> Seq<char> {
    seq!['\x1b', '[', '0', 'm']
}

/// Renders, with `anstyle::Style::render` (reached through `env_logger::fmt::style`),
/// the style whose only attribute is the foreground color `color`. Claimed: the text
/// is the escape sequence that sets that color, as the crate's source writes it
/// (no effects are set, so none are rendered before it).
#[verifier::external_body]
fn render_style(color: LevelColor) -> (s: String)
    ensures
        s@ == ansi_fg_code(color),
{
    let c = match color {
        LevelColor::Magenta => AnsiColor::Magenta,
        LevelColor::Blue => AnsiColor::Blue,
        LevelColor::Green => AnsiColor::Green,
        LevelColor::Yellow => AnsiColor::Yellow,
        LevelColor::Red => AnsiColor::Red,
    };
    Style::new().fg_color(Some(Color::Ansi(c))).render().to_string()
}

/// Renders, with `anstyle::Style::render_reset`, the reset of the style whose only
/// attribute is the foreground color `color`. Claimed: since that style is not the
/// empty style, the text is the reset escape sequence, as the crate's source writes it.
#[verifier::external_body]
fn render_style_reset(color: LevelColor) -> (s: String)
    ensures
        s@ == ansi_reset_code(),
{
    let c = match color {
        LevelColor::Magenta => AnsiColor::Magenta,
        LevelColor::Blue => AnsiColor::Blue,
        LevelColor::Green => AnsiColor::Green,
        LevelColor::Yellow => AnsiColor::Yellow,
        LevelColor::Red => AnsiColor::Red,
    };
    Style::new().fg_color(Some(Color::Ansi(c))).render_reset().to_string()
}

/// The name of the program, which is the default log target and starts every
/// target that the program logs to.
pub open spec fn program_name() -> Seq<char> {
    "wl-clip-persist"@
}

/// The default log target.
pub fn log_default_target() -> (t: &'static str)
    ensures
        t@ == program_name(),
{
    "wl-clip-persist"
}

/// The log target for the seat named `seat_name`.
pub open spec fn spec_log_seat_target(seat_name: u32) -> Seq<char> {
    program_name() + " Seat "@ + decimal_text(seat_name as nat)
}

/// The log target for the seat named `seat_name`.
pub fn log_seat_target(seat_name: u32) -> (t: String)
    ensures
        t@ == spec_log_seat_target(seat_name),
{
    let mut t = String::from_str(log_default_target());
    t.append(" Seat ");
    push_decimal(&mut t, seat_name as u64);
    t
}

/// The name of a clipboard, primary or regular, in title case or in lower case.
pub open spec fn spec_clipboard_type_str(is_primary_clipboard: bool, title_case: bool) -> Seq<char> {
    match (is_primary_clipboard, title_case) {
        (true, true) => "Primary"@,
        (true, false) => "primary"@,
        (false, true) => "Regular"@,
        (false, false) => "regular"@,
    }
}

/// The name of a clipboard. If `title_case` is false, lower case is used instead
/// of title case.
pub fn get_clipboard_type_str(is_primary_clipboard: bool, title_case: bool) -> (s: &'static str)
    ensures
        s@ == spec_clipboard_type_str(is_primary_clipboard, title_case),
{
    match (is_primary_clipboard, title_case) {
        (true, true) => "Primary",
        (true, false) => "primary",
        (false, true) => "Regular",
        (false, false) => "regular",
    }
}


/// The target shown in a log line: what follows the program name and a space, or
/// `main` for a target that is not of that form.
pub open spec fn spec_display_target(target: Seq<char>) -> Seq<char> {
    let prefix = program_name().push(' ');
    if is_prefix(prefix, target) {
        target.subrange(prefix.len() as int, target.len() as int)
    } else {
        "main"@
    }
}

/// The line written for a log record of the program: the time when one is given, the
/// colored level, the shown target and the message, each of whose lines after the
/// first is indented by two spaces; `None` for a record whose target is not the
/// program's.
pub open spec fn spec_log_line(
    time: Option<Seq<char>>,
    target: Seq<char>,
    level: LogLevel,
    message: Seq<char>,
) -> Option<Seq<char>> {
    if !is_prefix(program_name(), target) {
        None
    } else {
        let head = match time {
            Some(t) => t + " "@,
            None => Seq::<char>::empty(),
        };
        Some(head + ansi_fg_code(spec_level_style(level)) + spec_level_text(level) + ansi_reset_code() + " "@
            + spec_display_target(target) + " > "@ + join_with(spec_lines(message), "\n  "@) + "\n"@)
    }
}

/// Formats a log record with the given target, level and message, after the local
/// time `time` when timestamps are shown. Records of other targets than the
/// program's are not written (`None`).
pub fn format_log_record(time: Option<String>, target: &str, level: LogLevel, message: &str) -> (line: Option<String>)
    ensures
        opt_string_view(line) == spec_log_line(opt_string_view(time), target@, level, message@),
{
    let target_chars = chars_of(target);
    let name_chars = chars_of(log_default_target());
    if !chars_start_with(target_chars.as_slice(), name_chars.as_slice()) {
        return None;
    }
    let mut out = String::new();
    match time {
        Some(t) => {
            out.append(t.as_str());
            out.append(" ");
        },
        None => {},
    }
    let style = level_style(&level);
    let start = render_style(style);
    out.append(start.as_str());
    out.append(level_text(&level));
    let reset = render_style_reset(style);
    out.append(reset.as_str());
    out.append(" ");
    let mut prefix = name_chars.clone();
    prefix.push(' ');
    if chars_start_with(target_chars.as_slice(), prefix.as_slice()) {
        let mut rest: Vec<char> = Vec::new();
        let mut i: usize = prefix.len();
        while i < target_chars.len()
            invariant
                prefix.len() <= i <= target_chars.len(),
                rest@ == target_chars@.subrange(prefix.len() as int, i as int),
            decreases target_chars.len() - i,
        {
            rest.push(target_chars[i]);
            i = i + 1;
        }
        push_chars(&mut out, rest.as_slice());
    } else {
        out.append("main");
    }
    out.append(" > ");
    let indented = join_lines(message, "\n  ");
    out.append(indented.as_str());
    out.append("\n");
    Some(out)
}

/// The text mime types whose data is logged, in the order in which they are tried.
pub open spec fn spec_text_mime_types() -> Seq<Seq<char>> {
    seq![
        "text/plain;charset=utf-8"@,
        "text/plain"@,
        "UTF8_STRING"@,
        "COMPOUND_TEXT"@,
        "STRING"@,
        "TEXT"@,
    ]
}

/// The number of data bytes shown in full before the list is cut off.
pub const TRUNCATED_DATA_COUNT: usize = 30;

/// The decimal values of `items`, separated by a comma and a space.
pub open spec fn spec_byte_items(items: Seq<u8>) -> Seq<char>
    decreases items.len(),
{
    if items.len() == 0 {
        seq![]
    } else if items.len() == 1 {
        decimal_text(items[0] as nat)
    } else {
        spec_byte_items(items.drop_last()) + ", "@ + decimal_text(items.last() as nat)
    }
}

/// The list of the bytes of `data` in brackets; beyond `TRUNCATED_DATA_COUNT`
/// bytes, only the bytes before the last shown one are listed, followed by `...`.
pub open spec fn spec_truncated_data(data: Seq<u8>) -> Seq<char> {
    if data.len() <= TRUNCATED_DATA_COUNT {
        "["@ + spec_byte_items(data) + "]"@
    } else {
        "["@ + spec_byte_items(data.take(TRUNCATED_DATA_COUNT - 1)) + ", ..."@ + "]"@
    }
}

/// The list of the first `count` bytes of `data`, separated by a comma and a space.
fn push_byte_items(out: &mut String, data: &[u8], count: usize)
    requires
        count <= data.len(),
    ensures
        final(out)@ == old(out)@ + spec_byte_items(data@.take(count as int)),
{
    let mut is_first = true;
    let mut i: usize = 0;
    while i < count
        invariant
            i <= count <= data.len(),
            is_first == (i == 0),
            out@ == old(out)@ + spec_byte_items(data@.take(i as int)),
        decreases count - i,
    {
        assert(data@.take(i + 1).drop_last() == data@.take(i as int));
        assert(data@.take(i + 1).last() == data@[i as int]);
        if !is_first {
            out.append(", ");
        }
        push_decimal(out, data[i] as u64);
        is_first = false;
        i = i + 1;
    }
}

/// The bytes of `data` as they are shown in the log, cut off after
/// `TRUNCATED_DATA_COUNT` bytes.
pub fn truncated_data_text(data: &[u8]) -> (t: String)
    ensures
        t@ == spec_truncated_data(data@),
{
    let mut t = String::from_str("[");
    if data.len() <= TRUNCATED_DATA_COUNT {
        push_byte_items(&mut t, data, data.len());
        assert(data@.take(data.len() as int) == data@);
    } else {
        push_byte_items(&mut t, data, TRUNCATED_DATA_COUNT - 1);
        t.append(", ...");
    }
    t.append("]");
    t
}

/// The data read from a selection of a seat, by mime type: a map from mime type to data.
#[derive(Debug)]
pub struct MimeTypesWithData {
    seat_name: u32,
    is_primary_clipboard: bool,
    data: Vec<(String, Vec<u8>)>,
}

/// The data of the first entry for `mime_type`, if any.
pub open spec fn spec_lookup(entries: Seq<(String, Vec<u8>)>, mime_type: Seq<char>) -> Option<Seq<u8>>
    decreases entries.len(),
{
    if entries.len() == 0 {
        None
    } else if entries[0].0@ == mime_type {
        Some(entries[0].1@)
    } else {
        spec_lookup(entries.drop_first(), mime_type)
    }
}

/// No mime type occurs twice among `entries`.
pub open spec fn keys_distinct(entries: Seq<(String, Vec<u8>)>) -> bool {
    forall|i: int, j: int| 0 <= i < j < entries.len() ==> entries[i].0@ != entries[j].0@
}

proof fn lemma_lookup(entries: Seq<(String, Vec<u8>)>, mime_type: Seq<char>)
    ensures
        spec_lookup(entries, mime_type) is None <==> forall|j: int|
            0 <= j < entries.len() ==> entries[j].0@ != mime_type,
        keys_distinct(entries) ==> forall|j: int|
            0 <= j < entries.len() && entries[j].0@ == mime_type ==> spec_lookup(entries, mime_type)
                == Some(entries[j].1@),
    decreases entries.len(),
{
    if entries.len() > 0 {
        let rest = entries.drop_first();
        lemma_lookup(rest, mime_type);
        assert forall|j: int| 1 <= j < entries.len() implies #[trigger] entries[j] == rest[j - 1] by {}
        if spec_lookup(entries, mime_type) is None {
            assert forall|j: int| 0 <= j < entries.len() implies entries[j].0@ != mime_type by {
                if j > 0 {
                    assert(entries[j] == rest[j - 1]);
                }
            }
        }
        if keys_distinct(entries) {
            assert(keys_distinct(rest)) by {
                assert forall|a: int, b: int| 0 <= a < b < rest.len() implies rest[a].0@ != rest[b].0@ by {
                    assert(rest[a] == entries[a + 1]);
                    assert(rest[b] == entries[b + 1]);
                }
            }
            assert forall|j: int| 0 <= j < entries.len() && entries[j].0@ == mime_type implies
                spec_lookup(entries, mime_type) == Some(entries[j].1@) by {
                if j > 0 {
                    assert(entries[j] == rest[j - 1]);
                }
            }
        }
    }
}

impl MimeTypesWithData {
    #[verifier::type_invariant]
    spec fn inv(self) -> bool {
        keys_distinct(self.data@)
    }

    /// The name of the seat.
    pub closed spec fn seat(self) -> u32 {
        self.seat_name
    }

    /// Whether the selection is the primary one (else the regular one).
    pub closed spec fn primary(self) -> bool {
        self.is_primary_clipboard
    }

    /// The data read for `mime_type`, if any.
    pub closed spec fn data_for(self, mime_type: Seq<char>) -> Option<Seq<u8>> {
        spec_lookup(self.data@, mime_type)
    }

    /// No data yet for the selection of the seat named `seat_name`.
    pub fn new(seat_name: u32, is_primary_clipboard: bool) -> (s: Self)
        ensures
            s.seat() == seat_name,
            s.primary() == is_primary_clipboard,
            forall|m: Seq<char>| #[trigger] s.data_for(m) is None,
    {
        MimeTypesWithData { seat_name, is_primary_clipboard, data: Vec::new() }
    }

    /// The name of the seat.
    pub fn seat_name(&self) -> (r: u32)
        ensures
            r == self.seat(),
    {
        self.seat_name
    }

    /// Whether the selection is the primary one.
    pub fn is_primary_clipboard(&self) -> (r: bool)
        ensures
            r == self.primary(),
    {
        self.is_primary_clipboard
    }

    /// Sets the data for `mime_type`, replacing any data it had.
    pub fn insert(&mut self, mime_type: String, data: Vec<u8>)
        ensures
            final(self).seat() == old(self).seat(),
            final(self).primary() == old(self).primary(),
            forall|m: Seq<char>| #[trigger] final(self).data_for(m) == if m == mime_type@ {
                Some(data@)
            } else {
                old(self).data_for(m)
            },
    {
        proof {
            use_type_invariant(&*self);
        }
        let ghost old_entries = self.data@;
        let mut entries: Vec<(String, Vec<u8>)> = Vec::new();
        std::mem::swap(&mut entries, &mut self.data);
        let mut i: usize = 0;
        while i < entries.len()
            invariant
                i <= entries.len(),
                entries@ == old_entries,
                forall|j: int| 0 <= j < i ==> entries@[j].0@ != mime_type@,
            ensures
                i <= entries.len(),
                entries@ == old_entries,
                forall|j: int| 0 <= j < i ==> entries@[j].0@ != mime_type@,
                i < entries.len() ==> entries@[i as int].0@ == mime_type@,
            decreases entries.len() - i,
        {
            if crate::text::text_eq(entries[i].0.as_str(), mime_type.as_str()) {
                break;
            }
            i = i + 1;
        }
        let ghost key = mime_type@;
        let ghost value = data@;
        proof {
            lemma_lookup(old_entries, key);
        }
        if i < entries.len() {
            assert(entries@[i as int].0@ == key);
            entries.set(i, (mime_type, data));
            let ghost new_entries = entries@;
            assert(keys_distinct(new_entries)) by {
                assert forall|a: int, b: int| 0 <= a < b < new_entries.len() implies
                    new_entries[a].0@ != new_entries[b].0@ by {
                    if a != i && b != i {
                        assert(new_entries[a] == old_entries[a]);
                        assert(new_entries[b] == old_entries[b]);
                    } else if a == i {
                        assert(new_entries[b] == old_entries[b]);
                    } else {
                        assert(new_entries[a] == old_entries[a]);
                    }
                }
            }
            proof {
                lemma_lookup(new_entries, key);
                assert forall|m: Seq<char>| spec_lookup(new_entries, m) == if m == key {
                    Some(value)
                } else {
                    spec_lookup(old_entries, m)
                } by {
                    lemma_lookup(new_entries, m);
                    lemma_lookup(old_entries, m);
                    if m == key {
                        assert(new_entries[i as int].0@ == m);
                    } else if let Some(v) = spec_lookup(old_entries, m) {
                        let j = choose|j: int| 0 <= j < old_entries.len() && old_entries[j].0@ == m;
                        assert(new_entries[j] == old_entries[j]);
                    } else {
                        assert forall|j: int| 0 <= j < new_entries.len() implies new_entries[j].0@ != m by {
                            if j != i {
                                assert(new_entries[j] == old_entries[j]);
                            }
                        }
                    }
                }
            }
        } else {
            entries.push((mime_type, data));
            let ghost new_entries = entries@;
            assert(keys_distinct(new_entries)) by {
                assert forall|a: int, b: int| 0 <= a < b < new_entries.len() implies
                    new_entries[a].0@ != new_entries[b].0@ by {
                    assert(new_entries[a] == old_entries[a]);
                    if b < old_entries.len() {
                        assert(new_entries[b] == old_entries[b]);
                    }
                }
            }
            proof {
                assert forall|m: Seq<char>| spec_lookup(new_entries, m) == if m == key {
                    Some(value)
                } else {
                    spec_lookup(old_entries, m)
                } by {
                    lemma_lookup(new_entries, m);
                    lemma_lookup(old_entries, m);
                    if m == key {
                        assert(new_entries[old_entries.len() as int].0@ == m);
                    } else if let Some(v) = spec_lookup(old_entries, m) {
                        let j = choose|j: int| 0 <= j < old_entries.len() && old_entries[j].0@ == m;
                        assert(new_entries[j] == old_entries[j]);
                    } else {
                        assert forall|j: int| 0 <= j < new_entries.len() implies new_entries[j].0@ != m by {
                            if j < old_entries.len() {
                                assert(new_entries[j] == old_entries[j]);
                            }
                        }
                    }
                }
            }
        }
        self.data = entries;
    }

    /// The data read for `mime_type`, if any.
    pub fn get(&self, mime_type: &str) -> (r: Option<&Vec<u8>>)
        ensures
            match r {
                Some(d) => self.data_for(mime_type@) == Some(d@),
                None => self.data_for(mime_type@) is None,
            },
    {
        let mut i: usize = 0;
        assert(self.data@.skip(0) == self.data@);
        while i < self.data.len()
            invariant
                i <= self.data.len(),
                spec_lookup(self.data@, mime_type@) == spec_lookup(self.data@.skip(i as int), mime_type@),
            decreases self.data.len() - i,
        {
            assert(self.data@.skip(i as int).drop_first() == self.data@.skip(i + 1));
            assert(self.data@.skip(i as int)[0] == self.data@[i as int]);
            if crate::text::text_eq(self.data[i].0.as_str(), mime_type) {
                return Some(&self.data[i].1);
            }
            i = i + 1;
        }
        None
    }
}

/// The message that shows the data `data` read for the text mime type `mime_type`.
pub open spec fn spec_text_data_message(is_primary_clipboard: bool, mime_type: Seq<char>, data: Seq<u8>) -> Seq<char> {
    spec_clipboard_type_str(is_primary_clipboard, true) + " clipboard successfully read data for mime type "@
        + seq!['"'] + mime_type + seq!['"'] + ": "@ + spec_truncated_data(data)
}

/// The messages for those of `mime_types` that have data in `d`, in order.
pub open spec fn spec_text_data_messages(d: MimeTypesWithData, mime_types: Seq<Seq<char>>) -> Seq<Seq<char>>
    decreases mime_types.len(),
{
    if mime_types.len() == 0 {
        seq![]
    } else {
        let before = spec_text_data_messages(d, mime_types.drop_last());
        match d.data_for(mime_types.last()) {
            Some(data) => before.push(spec_text_data_message(d.primary(), mime_types.last(), data)),
            None => before,
        }
    }
}

fn text_mime_types() -> (v: Vec<&'static str>)
    ensures
        v@.len() == spec_text_mime_types().len(),
        forall|i: int| 0 <= i < v@.len() ==> #[trigger] v@[i]@ == spec_text_mime_types()[i],
{
    let v = vec![
        "text/plain;charset=utf-8",
        "text/plain",
        "UTF8_STRING",
        "COMPOUND_TEXT",
        "STRING",
        "TEXT",
    ];
    v
}

/// A record for the logger.
#[derive(Debug, Clone)]
pub struct LogRecord {
    pub level: LogLevel,
    pub target: String,
    pub message: String,
}

/// The trace records that show the successfully read data of the text mime types, in
/// the order of `spec_text_mime_types`, each cut off as `truncated_data_text` does, all
/// for the seat's target, `log_seat_target`.
pub fn log_text_data(mime_types_with_data: &MimeTypesWithData) -> (records: Vec<LogRecord>)
    ensures
        records@.len() == spec_text_data_messages(*mime_types_with_data, spec_text_mime_types()).len(),
        forall|i: int| 0 <= i < records@.len() ==> {
            &&& (#[trigger] records@[i]).level == LogLevel::Trace
            &&& records@[i].target@ == spec_log_seat_target(mime_types_with_data.seat())
            &&& records@[i].message@ == spec_text_data_messages(*mime_types_with_data, spec_text_mime_types())[i]
        },
{
    let types = text_mime_types();
    let is_primary = mime_types_with_data.is_primary_clipboard();
    let ghost d = *mime_types_with_data;
    let ghost names = spec_text_mime_types();
    let mut records: Vec<LogRecord> = Vec::new();
    let mut k: usize = 0;
    while k < types.len()
        invariant
            k <= types.len(),
            types@.len() == names.len(),
            forall|i: int| 0 <= i < types@.len() ==> #[trigger] types@[i]@ == names[i],
            d == *mime_types_with_data,
            is_primary == d.primary(),
            records@.len() == spec_text_data_messages(d, names.take(k as int)).len(),
            forall|i: int| 0 <= i < records@.len() ==> {
                &&& (#[trigger] records@[i]).level == LogLevel::Trace
                &&& records@[i].target@ == spec_log_seat_target(d.seat())
                &&& records@[i].message@ == spec_text_data_messages(d, names.take(k as int))[i]
            },
        decreases types.len() - k,
    {
        let mime_type = types[k];
        assert(names.take(k + 1).drop_last() == names.take(k as int));
        assert(names.take(k + 1).last() == mime_type@);
        match mime_types_with_data.get(mime_type) {
            Some(data) => {
                let mut m = String::from_str(get_clipboard_type_str(is_primary, true));
                m.append(" clipboard successfully read data for mime type ");
                push_char(&mut m, '"');
                m.append(mime_type);
                push_char(&mut m, '"');
                m.append(": ");
                let shown = truncated_data_text(data.as_slice());
                m.append(shown.as_str());
                let target = log_seat_target(mime_types_with_data.seat_name());
                records.push(LogRecord { level: LogLevel::Trace, target, message: m });
            },
            None => {},
        }
        k = k + 1;
    }
    assert(names.take(types.len() as int) == names);
    records
}

/// The decimal text of a byte has at most three digits.
proof fn lemma_byte_decimal_len(b: u8)
    ensures
        1 <= decimal_text(b as nat).len() <= 3,
{
    let n = b as nat;
    if n >= 10 {
        assert(decimal_text(n) == decimal_text(n / 10).push(crate::decimal::digit_char(n % 10)));
        if n / 10 >= 10 {
            assert(decimal_text(n / 10) == decimal_text(n / 100).push(crate::decimal::digit_char((n / 10) % 10)));
            assert(n / 100 < 10);
        }
    }
}

/// The list of `items` takes at most five characters per byte.
proof fn lemma_byte_items_len(items: Seq<u8>)
    ensures
        spec_byte_items(items).len() <= 5 * items.len(),
    decreases items.len(),
{
    reveal_strlit(", ");
    if items.len() == 1 {
        lemma_byte_decimal_len(items[0]);
    } else if items.len() > 1 {
        lemma_byte_items_len(items.drop_last());
        lemma_byte_decimal_len(items.last());
    }
}

/// Law: data longer than `TRUNCATED_DATA_COUNT` bytes is shown as its first
/// `TRUNCATED_DATA_COUNT - 1` bytes are shown, with `, ...` before the closing
/// bracket; and whatever its length, the shown text stays within a fixed bound.
pub proof fn law_truncated_data_shows_prefix(data: Seq<u8>)
    ensures
        data.len() > TRUNCATED_DATA_COUNT ==> spec_truncated_data(data)
            == spec_truncated_data(data.take(TRUNCATED_DATA_COUNT - 1)).drop_last() + ", ..."@ + "]"@,
        spec_truncated_data(data).len() <= 160,
{
    reveal_strlit("[");
    reveal_strlit("]");
    reveal_strlit(", ...");
    let short = data.take(TRUNCATED_DATA_COUNT - 1);
    if data.len() > TRUNCATED_DATA_COUNT {
        assert(short.take(TRUNCATED_DATA_COUNT - 1) == short);
        let inner = "["@ + spec_byte_items(short);
        assert(spec_truncated_data(short) == inner + "]"@);
        assert((inner + "]"@).drop_last() =~= inner);
        lemma_byte_items_len(short);
    } else {
        lemma_byte_items_len(data);
    }
}

/// Law: the target shown in a log line is what follows the program name and a
/// space, and `main` for the program name alone.
pub proof fn law_display_target(rest: Seq<char>)
    ensures
        spec_display_target(program_name().push(' ') + rest) == rest,
        spec_display_target(program_name()) == "main"@,
{
    let prefix = program_name().push(' ');
    let target = prefix + rest;
    assert(target.subrange(0, prefix.len() as int) =~= prefix);
    assert(target.subrange(prefix.len() as int, target.len() as int) =~= rest);
    assert(!is_prefix(prefix, program_name()));
}

/// Law: showing the time changes a log line only by putting the time and a space in
/// front of it; which records are written, and everything else in their lines, does
/// not depend on it.
pub proof fn law_log_line_time_is_a_prefix(time: Seq<char>, target: Seq<char>, level: LogLevel, message: Seq<char>)
    ensures
        spec_log_line(Some(time), target, level, message) == match spec_log_line(None, target, level, message) {
            Some(line) => Some(time + " "@ + line),
            None => None::<Seq<char>>,
        },
{
    if is_prefix(program_name(), target) {
        let rest = ansi_fg_code(spec_level_style(level)) + spec_level_text(level) + ansi_reset_code() + " "@
            + spec_display_target(target) + " > "@ + join_with(spec_lines(message), "\n  "@) + "\n"@;
        assert(spec_log_line(None, target, level, message) == Some(Seq::<char>::empty() + ansi_fg_code(spec_level_style(level)) + spec_level_text(level) + ansi_reset_code() + " "@
            + spec_display_target(target) + " > "@ + join_with(spec_lines(message), "\n  "@) + "\n"@));
        assert(Seq::<char>::empty() + ansi_fg_code(spec_level_style(level)) + spec_level_text(level) + ansi_reset_code() + " "@
            + spec_display_target(target) + " > "@ + join_with(spec_lines(message), "\n  "@) + "\n"@ =~= rest);
        assert((time + " "@) + ansi_fg_code(spec_level_style(level)) + spec_level_text(level) + ansi_reset_code() + " "@
            + spec_display_target(target) + " > "@ + join_with(spec_lines(message), "\n  "@) + "\n"@ =~= time + " "@ + rest);
    }
}

/// Law: short data is shown in full: no byte gives `[]`, and one more byte adds its
/// decimal value, after a comma and a space unless it is the first, before the closing
/// bracket.
pub proof fn law_truncated_data_shows_short_data(data: Seq<u8>, b: u8)
    requires
        data.len() < TRUNCATED_DATA_COUNT,
    ensures
        spec_truncated_data(Seq::<u8>::empty()) == "[]"@,
        spec_truncated_data(data.push(b)) == spec_truncated_data(data).drop_last() + (if data.len() == 0 {
            Seq::<char>::empty()
        } else {
            ", "@
        }) + decimal_text(b as nat) + "]"@,
{
    reveal_strlit("[");
    reveal_strlit("]");
    reveal_strlit("[]");
    assert("["@ + spec_byte_items(Seq::<u8>::empty()) + "]"@ =~= "[]"@);
    let inner = "["@ + spec_byte_items(data);
    assert((inner + "]"@).drop_last() =~= inner);
    assert(data.push(b).drop_last() == data);
    if data.len() == 0 {
        assert(spec_byte_items(data) =~= Seq::<char>::empty());
        assert(spec_byte_items(data.push(b)) == decimal_text(b as nat));
        assert(inner + Seq::<char>::empty() + decimal_text(b as nat) + "]"@ =~= "["@ + decimal_text(b as nat) + "]"@);
    } else {
        assert(spec_byte_items(data.push(b)) == spec_byte_items(data) + ", "@ + decimal_text(b as nat));
        assert(inner + ", "@ + decimal_text(b as nat) + "]"@ =~= "["@ + (spec_byte_items(data) + ", "@ + decimal_text(b as nat)) + "]"@);
    }
}

/// Law: a message without a line feed is written as it is: the line for it is the
/// line for the empty message with the message put before the final line feed.
pub proof fn law_log_line_single_line_message(
    time: Option<Seq<char>>,
    target: Seq<char>,
    level: LogLevel,
    message: Seq<char>,
)
    requires
        crate::text::has_no_line_feed(message),
    ensures
        match (spec_log_line(time, target, level, Seq::<char>::empty()), spec_log_line(time, target, level, message)) {
            (Some(empty_line), Some(line)) => line == empty_line.drop_last() + message + "\n"@,
            (None, None) => true,
            _ => false,
        },
{
    reveal_strlit("\n");
    crate::text::law_join_lines_single_line(message, "\n  "@);
    crate::text::law_join_lines_single_line(Seq::<char>::empty(), "\n  "@);
    if is_prefix(program_name(), target) {
        let head = match time {
            Some(t) => t + " "@,
            None => Seq::<char>::empty(),
        };
        let front = head + ansi_fg_code(spec_level_style(level)) + spec_level_text(level) + ansi_reset_code() + " "@
            + spec_display_target(target) + " > "@;
        assert(spec_log_line(time, target, level, Seq::<char>::empty()) == Some(front + Seq::<char>::empty() + "\n"@));
        assert((front + Seq::<char>::empty() + "\n"@).drop_last() =~= front);
        assert(spec_log_line(time, target, level, message) == Some(front + message + "\n"@));
    }
}

} // verus!
