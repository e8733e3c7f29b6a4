//! The settings the program runs with, and how they are read from the values
//! of its command-line arguments.

use vstd::prelude::*;

use crate::decimal::{parse_u64, spec_parse_u64, ParseNumberError};
use crate::mime_type_regex::{compile_regex, fancy_regex_compiles, MimeTypeRegex};
use crate::text::{chars_of, eq_ignore_ascii_case, opt_string_view, spec_eq_ignore_ascii_case, text_eq};

verus! {

/// The clipboard types to operate on.
#[derive(Debug, Clone, Copy, PartialEq, Eq, PartialOrd, Ord, Hash)]
pub enum ClipboardType {
    Regular,
    Primary,
    Both,
}

impl ClipboardType {
    /// Whether the primary selection is activated.
    pub fn primary(&self) -> (r: bool)
        ensures
            r == (*self is Primary || *self is Both),
    {
        match self {
            ClipboardType::Primary | ClipboardType::Both => true,
            ClipboardType::Regular => false,
        }
    }

    /// Whether the regular selection is activated.
    pub fn regular(&self) -> (r: bool)
        ensures
            r == (*self is Regular || *self is Both),
    {
        match self {
            ClipboardType::Regular | ClipboardType::Both => true,
            ClipboardType::Primary => false,
        }
    }

    /// The clipboard type that the argument value `name` names.
    pub open spec fn spec_from_value_name(name: Seq<char>) -> Option<ClipboardType> {
        if name == "regular"@ {
            Some(ClipboardType::Regular)
        } else if name == "primary"@ {
            Some(ClipboardType::Primary)
        } else if name == "both"@ {
            Some(ClipboardType::Both)
        } else {
            None
        }
    }

    /// The clipboard type that the argument value `name` names, if any.
    pub fn from_value_name(name: &str) -> (r: Option<ClipboardType>)
        ensures
            r == Self::spec_from_value_name(name@),
    {
        if text_eq(name, "regular") {
            Some(ClipboardType::Regular)
        } else if text_eq(name, "primary") {
            Some(ClipboardType::Primary)
        } else if text_eq(name, "both") {
            Some(ClipboardType::Both)
        } else {
            None
        }
    }
}

/// Law: every clipboard type activates at least one selection, and only `Both`
/// activates the two of them.
pub proof fn law_clipboard_type_selections(t: ClipboardType)
    ensures
        (t is Primary || t is Both) || (t is Regular || t is Both),
        ((t is Primary || t is Both) && (t is Regular || t is Both)) <==> t is Both,
{
}

/// A number, or infinity.
#[derive(Debug, Clone, Copy, PartialEq, Eq)]
pub enum NumberOrInf<T> {
    Number(T),
    Inf,
}

/// What `NumberOrInf::<u64>::from_str` gives for the text `s`: infinity for `inf`
/// in any case of its letters, else the unsigned decimal number that `s` is.
pub open spec fn spec_number_or_inf_from_str(s: Seq<char>) -> Result<NumberOrInf<u64>, ParseNumberError> {
    if spec_eq_ignore_ascii_case(s, "inf"@) {
        Ok(NumberOrInf::Inf)
    } else {
        match spec_parse_u64(s) {
            Ok(n) => Ok(NumberOrInf::Number(n)),
            Err(e) => Err(e),
        }
    }
}

impl NumberOrInf<u64> {
    /// Reads `inf` (in any case) as infinity and anything else as an unsigned number.
    pub fn from_str(s: &str) -> (r: Result<NumberOrInf<u64>, ParseNumberError>)
        ensures
            r == spec_number_or_inf_from_str(s@),
    {
        if eq_ignore_ascii_case(s, "inf") {
            Ok(NumberOrInf::Inf)
        } else {
            let cs = chars_of(s);
            match parse_u64(cs.as_slice()) {
                Ok(n) => Ok(NumberOrInf::Number(n)),
                Err(e) => Err(e),
            }
        }
    }
}

/// Law: the decimal text of any 64-bit number reads back as that number, never as
/// infinity.
pub proof fn law_number_or_inf_reads_decimal(n: u64)
    ensures
        spec_number_or_inf_from_str(crate::decimal::decimal_text(n as nat))
            == Ok::<NumberOrInf<u64>, ParseNumberError>(NumberOrInf::Number(n)),
{
    let text = crate::decimal::decimal_text(n as nat);
    crate::decimal::law_parse_decimal_roundtrip(n);
    crate::decimal::lemma_decimal_text_digits(n as nat);
    reveal_strlit("inf");
    if spec_eq_ignore_ascii_case(text, "inf"@) {
        assert(crate::text::ascii_lower(text[0]) == crate::text::ascii_lower('i'));
        assert(crate::decimal::is_digit(text[0]));
    }
}

/// The clipboard protocols that can be forced.
#[derive(Debug, Clone, Copy, PartialEq, Eq, PartialOrd, Ord, Hash)]
pub enum ClipboardProtocol {
    ExtDataControlV1,
    WlrDataControlUnstableV1,
}

impl ClipboardProtocol {
    /// The protocol that the argument value `name` names.
    pub open spec fn spec_from_value_name(name: Seq<char>) -> Option<ClipboardProtocol> {
        if name == "ext-data-control-v1"@ {
            Some(ClipboardProtocol::ExtDataControlV1)
        } else if name == "wlr-data-control-unstable-v1"@ {
            Some(ClipboardProtocol::WlrDataControlUnstableV1)
        } else {
            None
        }
    }

    /// The protocol that the argument value `name` names, if any.
    pub fn from_value_name(name: &str) -> (r: Option<ClipboardProtocol>)
        ensures
            r == Self::spec_from_value_name(name@),
    {
        if text_eq(name, "ext-data-control-v1") {
            Some(ClipboardProtocol::ExtDataControlV1)
        } else if text_eq(name, "wlr-data-control-unstable-v1") {
            Some(ClipboardProtocol::WlrDataControlUnstableV1)
        } else {
            None
        }
    }
}

} // verus!

verus! {

/// The write timeout used when none is given, in milliseconds.
pub const DEFAULT_WRITE_TIMEOUT_MS: u64 = 3000;

/// The delay between reconnect tries used when none is given, in milliseconds.
pub const DEFAULT_RECONNECT_DELAY_MS: u64 = 100;

/// The largest write timeout and reconnect delay accepted, in milliseconds: the
/// largest value of an `i32`.
pub const MAX_MILLISECONDS: u64 = 2147483647;

/// The settings the program was started with.
#[derive(Debug, Clone)]
pub struct Settings {
    /// The clipboard types which are activated.
    pub clipboard_type: ClipboardType,
    /// The write timeout in milliseconds when writing the clipboard data to other clients.
    pub write_timeout_ms: u64,
    /// Whether selection events should be ignored when at least one error occurred.
    pub ignore_selection_event_on_error: bool,
    /// The selection size limit in bytes, or `None` if no limit.
    pub selection_size_limit_bytes: Option<u64>,
    /// If `None`, the selection events should not be filtered by a regex.
    /// Otherwise, all mime types have to match the regex for it to be not ignored.
    pub all_mime_type_regex: Option<MimeTypeRegex>,
    /// The number of times a reconnect to the Wayland server should be tried after an error.
    pub reconnect_tries: NumberOrInf<u64>,
    /// The delay in milliseconds between two reconnect tries to the Wayland server.
    pub reconnect_delay_ms: u64,
    /// If `Some`, force this specific clipboard protocol, otherwise this is handled automatically.
    pub force_protocol: Option<ClipboardProtocol>,
    /// If `true`, do not ignore specific mime types as workaround.
    pub disable_workaround_ignore_mime_types: bool,
    /// If `true`, do not request mime types in specific order as workaround.
    pub disable_workaround_order_mime_type_requests: bool,
}

impl Settings {
    /// The bounds that every settings value read from arguments keeps.
    pub open spec fn wf(&self) -> bool {
        &&& 1 <= self.write_timeout_ms <= MAX_MILLISECONDS
        &&& self.reconnect_delay_ms <= MAX_MILLISECONDS
        &&& (self.selection_size_limit_bytes matches Some(limit) ==> limit != 0)
    }
}

/// The values given on the command line, as text, for the arguments that the
/// settings are read from; `None` where an argument was not given.
#[derive(Debug, Clone)]
pub struct SettingsArguments {
    /// `--clipboard <TYPE>`
    pub clipboard: Option<String>,
    /// `--write-timeout <MILLISECONDS>`
    pub write_timeout: Option<String>,
    /// `--ignore-event-on-error`
    pub ignore_event_on_error: bool,
    /// `--selection-size-limit <BYTES>`
    pub selection_size_limit: Option<String>,
    /// `--all-mime-type-regex <REGEX>`
    pub all_mime_type_regex: Option<String>,
    /// `--reconnect-tries <NUMBER|INF>`
    pub reconnect_tries: Option<String>,
    /// `--reconnect-delay <MILLISECONDS>`
    pub reconnect_delay: Option<String>,
    /// `--force-protocol <PROTOCOL>`
    pub force_protocol: Option<String>,
    /// `--disable-workaround-ignore-mime-types`
    pub disable_workaround_ignore_mime_types: bool,
    /// `--disable-workaround-order-mime-type-requests`
    pub disable_workaround_order_mime_type_requests: bool,
}

/// The arguments whose values can be refused.
#[derive(Debug, Clone, Copy, PartialEq, Eq)]
pub enum SettingsArgument {
    Clipboard,
    WriteTimeout,
    SelectionSizeLimit,
    AllMimeTypeRegex,
    ReconnectTries,
    ReconnectDelay,
    ForceProtocol,
}

/// Why the value of an argument was refused.
#[derive(Debug, Clone, Copy, PartialEq, Eq)]
pub enum ArgumentProblem {
    /// A required argument was not given.
    Missing,
    /// The value names none of the possible choices.
    UnknownValue,
    /// The value is not an unsigned decimal number.
    Number(ParseNumberError),
    /// The number lies outside `min..=max`.
    OutOfRange { min: u64, max: u64 },
    /// The number is zero where zero is not allowed.
    Zero,
    /// The value is empty where text is required.
    Empty,
}

/// Why the settings could not be read.
#[derive(Debug)]
pub enum SettingsError {
    /// The value of an argument was refused.
    Argument(SettingsArgument, ArgumentProblem),
    /// The mime type regex could not be compiled.
    InvalidRegex(fancy_regex::Error),
}

/// What an optional number argument reads as: `default` when absent, else the
/// number, which has to lie in `min..=max`.
pub open spec fn spec_ranged_number(
    value: Option<Seq<char>>,
    default: u64,
    min: u64,
    max: u64,
) -> Result<u64, ArgumentProblem> {
    match value {
        None => Ok(default),
        Some(s) => match spec_parse_u64(s) {
            Err(e) => Err(ArgumentProblem::Number(e)),
            Ok(n) => if min <= n && n <= max {
                Ok(n)
            } else {
                Err(ArgumentProblem::OutOfRange { min, max })
            },
        },
    }
}

/// What the clipboard argument reads as.
pub open spec fn spec_clipboard_argument(value: Option<Seq<char>>) -> Result<ClipboardType, ArgumentProblem> {
    match value {
        None => Err(ArgumentProblem::Missing),
        Some(s) => match ClipboardType::spec_from_value_name(s) {
            Some(t) => Ok(t),
            None => Err(ArgumentProblem::UnknownValue),
        },
    }
}

/// What the selection size limit argument reads as: no limit when absent, else a
/// non-zero number of bytes.
pub open spec fn spec_size_limit_argument(value: Option<Seq<char>>) -> Result<Option<u64>, ArgumentProblem> {
    match value {
        None => Ok(None),
        Some(s) => match spec_parse_u64(s) {
            Err(e) => Err(ArgumentProblem::Number(e)),
            Ok(n) => if n == 0 {
                Err(ArgumentProblem::Zero)
            } else {
                Ok(Some(n))
            },
        },
    }
}

/// What the reconnect tries argument reads as: no reconnect when absent.
pub open spec fn spec_reconnect_tries_argument(value: Option<Seq<char>>) -> Result<NumberOrInf<u64>, ArgumentProblem> {
    match value {
        None => Ok(NumberOrInf::Number(0)),
        Some(s) => match spec_number_or_inf_from_str(s) {
            Ok(t) => Ok(t),
            Err(e) => Err(ArgumentProblem::Number(e)),
        },
    }
}

/// What the force protocol argument reads as.
pub open spec fn spec_force_protocol_argument(value: Option<Seq<char>>) -> Result<Option<ClipboardProtocol>, ArgumentProblem> {
    match value {
        None => Ok(None),
        Some(s) => match ClipboardProtocol::spec_from_value_name(s) {
            Some(p) => Ok(Some(p)),
            None => Err(ArgumentProblem::UnknownValue),
        },
    }
}

/// Whether the mime type regex argument is given but empty.
pub open spec fn spec_regex_argument_empty(value: Option<Seq<char>>) -> bool {
    value matches Some(s) && s.len() == 0
}

/// The first argument, in the order in which they are declared, whose value is
/// refused, and why; a missing clipboard type is reported only when every given
/// value is accepted, as a missing required argument is found only after all given
/// values have been read. `None` when nothing is refused.
pub open spec fn spec_arguments_problem(args: SettingsArguments) -> Option<(SettingsArgument, ArgumentProblem)> {
    if args.clipboard is Some && spec_clipboard_argument(opt_string_view(args.clipboard)) is Err {
        Some((SettingsArgument::Clipboard, ArgumentProblem::UnknownValue))
    } else if let Err(p) = spec_ranged_number(opt_string_view(args.write_timeout), DEFAULT_WRITE_TIMEOUT_MS, 1, MAX_MILLISECONDS) {
        Some((SettingsArgument::WriteTimeout, p))
    } else if let Err(p) = spec_size_limit_argument(opt_string_view(args.selection_size_limit)) {
        Some((SettingsArgument::SelectionSizeLimit, p))
    } else if spec_regex_argument_empty(opt_string_view(args.all_mime_type_regex)) {
        Some((SettingsArgument::AllMimeTypeRegex, ArgumentProblem::Empty))
    } else if let Err(p) = spec_reconnect_tries_argument(opt_string_view(args.reconnect_tries)) {
        Some((SettingsArgument::ReconnectTries, p))
    } else if let Err(p) = spec_ranged_number(opt_string_view(args.reconnect_delay), DEFAULT_RECONNECT_DELAY_MS, 0, MAX_MILLISECONDS) {
        Some((SettingsArgument::ReconnectDelay, p))
    } else if let Err(p) = spec_force_protocol_argument(opt_string_view(args.force_protocol)) {
        Some((SettingsArgument::ForceProtocol, p))
    } else if args.clipboard is None {
        Some((SettingsArgument::Clipboard, ArgumentProblem::Missing))
    } else {
        None
    }
}

/// Whether the mime type regex argument, if given, is a pattern that compiles.
pub open spec fn spec_regex_argument_compiles(value: Option<Seq<char>>) -> bool {
    value matches Some(s) ==> fancy_regex_compiles(s)
}

fn parse_ranged_number(value: &str, min: u64, max: u64) -> (r: Result<u64, ArgumentProblem>)
    ensures
        r == spec_ranged_number(Some(value@), 0, min, max),
{
    let cs = chars_of(value);
    match parse_u64(cs.as_slice()) {
        Err(e) => Err(ArgumentProblem::Number(e)),
        Ok(n) => if min <= n && n <= max {
            Ok(n)
        } else {
            Err(ArgumentProblem::OutOfRange { min, max })
        },
    }
}

/// Reads the value of `--write-timeout`.
pub fn parse_write_timeout_argument(value: &str) -> (r: Result<u64, ArgumentProblem>)
    ensures
        r == spec_ranged_number(Some(value@), DEFAULT_WRITE_TIMEOUT_MS, 1, MAX_MILLISECONDS),
{
    parse_ranged_number(value, 1, MAX_MILLISECONDS)
}

/// Reads the value of `--reconnect-delay`.
pub fn parse_reconnect_delay_argument(value: &str) -> (r: Result<u64, ArgumentProblem>)
    ensures
        r == spec_ranged_number(Some(value@), DEFAULT_RECONNECT_DELAY_MS, 0, MAX_MILLISECONDS),
{
    parse_ranged_number(value, 0, MAX_MILLISECONDS)
}

/// Reads the value of `--clipboard`.
pub fn parse_clipboard_argument(value: &str) -> (r: Result<ClipboardType, ArgumentProblem>)
    ensures
        r == spec_clipboard_argument(Some(value@)),
{
    match ClipboardType::from_value_name(value) {
        Some(t) => Ok(t),
        None => Err(ArgumentProblem::UnknownValue),
    }
}

/// Reads the value of `--selection-size-limit`.
pub fn parse_selection_size_limit_argument(value: &str) -> (r: Result<u64, ArgumentProblem>)
    ensures
        spec_size_limit_argument(Some(value@)) == match r {
            Ok(n) => Ok(Some(n)),
            Err(p) => Err::<Option<u64>, ArgumentProblem>(p),
        },
{
    let cs = chars_of(value);
    match parse_u64(cs.as_slice()) {
        Err(e) => Err(ArgumentProblem::Number(e)),
        Ok(n) => if n == 0 {
            Err(ArgumentProblem::Zero)
        } else {
            Ok(n)
        },
    }
}

/// Checks the value of `--all-mime-type-regex`, which must not be empty.
pub fn check_mime_type_regex_argument(value: &str) -> (r: Result<(), ArgumentProblem>)
    ensures
        r is Err <==> spec_regex_argument_empty(Some(value@)),
        r is Err ==> r == Err::<(), ArgumentProblem>(ArgumentProblem::Empty),
{
    let cs = chars_of(value);
    if cs.len() == 0 {
        Err(ArgumentProblem::Empty)
    } else {
        Ok(())
    }
}

/// Reads the value of `--reconnect-tries`.
pub fn parse_reconnect_tries_argument(value: &str) -> (r: Result<NumberOrInf<u64>, ArgumentProblem>)
    ensures
        r == spec_reconnect_tries_argument(Some(value@)),
{
    match NumberOrInf::<u64>::from_str(value) {
        Ok(t) => Ok(t),
        Err(e) => Err(ArgumentProblem::Number(e)),
    }
}

/// Reads the value of `--force-protocol`.
pub fn parse_force_protocol_argument(value: &str) -> (r: Result<ClipboardProtocol, ArgumentProblem>)
    ensures
        spec_force_protocol_argument(Some(value@)) == match r {
            Ok(p) => Ok(Some(p)),
            Err(e) => Err::<Option<ClipboardProtocol>, ArgumentProblem>(e),
        },
{
    match ClipboardProtocol::from_value_name(value) {
        Some(p) => Ok(p),
        None => Err(ArgumentProblem::UnknownValue),
    }
}

/// Reads the settings from the values of the command-line arguments.
///
/// Every given value is checked in the order in which the arguments are declared,
/// and the first refused one is reported; then a missing clipboard type; only when
/// all are accepted is the mime type regex compiled. The values carry no record of
/// where they stood on the command line, so among several refused values the one
/// declared first is reported.
pub fn get_settings(args: &SettingsArguments) -> (r: Result<Settings, SettingsError>)
    ensures
        match spec_arguments_problem(*args) {
            Some((argument, problem)) => r == Err::<Settings, SettingsError>(SettingsError::Argument(argument, problem)),
            None => {
                &&& r is Err <==> !spec_regex_argument_compiles(opt_string_view(args.all_mime_type_regex))
                &&& r is Err ==> r->Err_0 is InvalidRegex
                &&& r matches Ok(s) ==> {
                    &&& s.wf()
                    &&& spec_clipboard_argument(opt_string_view(args.clipboard)) == Ok::<_, ArgumentProblem>(s.clipboard_type)
                    &&& spec_ranged_number(opt_string_view(args.write_timeout), DEFAULT_WRITE_TIMEOUT_MS, 1, MAX_MILLISECONDS) == Ok::<_, ArgumentProblem>(s.write_timeout_ms)
                    &&& s.ignore_selection_event_on_error == args.ignore_event_on_error
                    &&& spec_size_limit_argument(opt_string_view(args.selection_size_limit)) == Ok::<_, ArgumentProblem>(s.selection_size_limit_bytes)
                    &&& (s.all_mime_type_regex is Some <==> args.all_mime_type_regex is Some)
                    &&& (s.all_mime_type_regex matches Some(m) ==> args.all_mime_type_regex matches Some(p)
                        && m@ == p@)
                    &&& spec_reconnect_tries_argument(opt_string_view(args.reconnect_tries)) == Ok::<_, ArgumentProblem>(s.reconnect_tries)
                    &&& spec_ranged_number(opt_string_view(args.reconnect_delay), DEFAULT_RECONNECT_DELAY_MS, 0, MAX_MILLISECONDS) == Ok::<_, ArgumentProblem>(s.reconnect_delay_ms)
                    &&& spec_force_protocol_argument(opt_string_view(args.force_protocol)) == Ok::<_, ArgumentProblem>(s.force_protocol)
                    &&& s.disable_workaround_ignore_mime_types == args.disable_workaround_ignore_mime_types
                    &&& s.disable_workaround_order_mime_type_requests == args.disable_workaround_order_mime_type_requests
                }
            },
        },
{
    let clipboard_type = match &args.clipboard {
        None => None,
        Some(v) => match parse_clipboard_argument(v.as_str()) {
            Ok(t) => Some(t),
            Err(p) => return Err(SettingsError::Argument(SettingsArgument::Clipboard, p)),
        },
    };
    let write_timeout_ms = match &args.write_timeout {
        None => DEFAULT_WRITE_TIMEOUT_MS,
        Some(v) => match parse_write_timeout_argument(v.as_str()) {
            Ok(n) => n,
            Err(p) => return Err(SettingsError::Argument(SettingsArgument::WriteTimeout, p)),
        },
    };
    let selection_size_limit_bytes = match &args.selection_size_limit {
        None => None,
        Some(v) => match parse_selection_size_limit_argument(v.as_str()) {
            Ok(n) => Some(n),
            Err(p) => return Err(SettingsError::Argument(SettingsArgument::SelectionSizeLimit, p)),
        },
    };
    if let Some(v) = &args.all_mime_type_regex {
        if let Err(p) = check_mime_type_regex_argument(v.as_str()) {
            return Err(SettingsError::Argument(SettingsArgument::AllMimeTypeRegex, p));
        }
    }
    let reconnect_tries = match &args.reconnect_tries {
        None => NumberOrInf::Number(0),
        Some(v) => match parse_reconnect_tries_argument(v.as_str()) {
            Ok(t) => t,
            Err(p) => return Err(SettingsError::Argument(SettingsArgument::ReconnectTries, p)),
        },
    };
    let reconnect_delay_ms = match &args.reconnect_delay {
        None => DEFAULT_RECONNECT_DELAY_MS,
        Some(v) => match parse_reconnect_delay_argument(v.as_str()) {
            Ok(n) => n,
            Err(p) => return Err(SettingsError::Argument(SettingsArgument::ReconnectDelay, p)),
        },
    };
    let force_protocol = match &args.force_protocol {
        None => None,
        Some(v) => match parse_force_protocol_argument(v.as_str()) {
            Ok(p) => Some(p),
            Err(p) => return Err(SettingsError::Argument(SettingsArgument::ForceProtocol, p)),
        },
    };
    let clipboard_type = match clipboard_type {
        None => return Err(SettingsError::Argument(SettingsArgument::Clipboard, ArgumentProblem::Missing)),
        Some(t) => t,
    };
    let all_mime_type_regex = match &args.all_mime_type_regex {
        None => None,
        Some(pattern) => match compile_regex(pattern.as_str()) {
            Ok(regex) => Some(regex),
            Err(e) => return Err(SettingsError::InvalidRegex(e)),
        },
    };
    Ok(Settings {
        clipboard_type,
        write_timeout_ms,
        ignore_selection_event_on_error: args.ignore_event_on_error,
        selection_size_limit_bytes,
        all_mime_type_regex,
        reconnect_tries,
        reconnect_delay_ms,
        force_protocol,
        disable_workaround_ignore_mime_types: args.disable_workaround_ignore_mime_types,
        disable_workaround_order_mime_type_requests: args.disable_workaround_order_mime_type_requests,
    })
}

/// Law: each clipboard type is read from its own name and from no other text:
/// `regular` gives `Regular`, `primary` gives `Primary`, `both` gives `Both`, and a
/// value that is read as a type is that type's name.
pub proof fn law_clipboard_argument_names(s: Seq<char>, t: ClipboardType)
    ensures
        spec_clipboard_argument(Some("regular"@)) == Ok::<ClipboardType, ArgumentProblem>(ClipboardType::Regular),
        spec_clipboard_argument(Some("primary"@)) == Ok::<ClipboardType, ArgumentProblem>(ClipboardType::Primary),
        spec_clipboard_argument(Some("both"@)) == Ok::<ClipboardType, ArgumentProblem>(ClipboardType::Both),
        spec_clipboard_argument(Some(s)) == Ok::<ClipboardType, ArgumentProblem>(t) ==> s == match t {
            ClipboardType::Regular => "regular"@,
            ClipboardType::Primary => "primary"@,
            ClipboardType::Both => "both"@,
        },
{
    reveal_strlit("regular");
    reveal_strlit("primary");
    reveal_strlit("both");
    assert("regular"@ != "primary"@) by {
        assert("regular"@[0] != "primary"@[0]);
    }
    assert("regular"@ != "both"@) by {
        assert("regular"@.len() != "both"@.len());
    }
    assert("primary"@ != "both"@) by {
        assert("primary"@.len() != "both"@.len());
    }
}

/// Law: each protocol is read from its own name and from no other text.
pub proof fn law_force_protocol_argument_names(s: Seq<char>, p: ClipboardProtocol)
    ensures
        spec_force_protocol_argument(Some("ext-data-control-v1"@))
            == Ok::<Option<ClipboardProtocol>, ArgumentProblem>(Some(ClipboardProtocol::ExtDataControlV1)),
        spec_force_protocol_argument(Some("wlr-data-control-unstable-v1"@))
            == Ok::<Option<ClipboardProtocol>, ArgumentProblem>(Some(ClipboardProtocol::WlrDataControlUnstableV1)),
        spec_force_protocol_argument(Some(s)) == Ok::<Option<ClipboardProtocol>, ArgumentProblem>(Some(p)) ==> s
            == match p {
            ClipboardProtocol::ExtDataControlV1 => "ext-data-control-v1"@,
            ClipboardProtocol::WlrDataControlUnstableV1 => "wlr-data-control-unstable-v1"@,
        },
{
    reveal_strlit("ext-data-control-v1");
    reveal_strlit("wlr-data-control-unstable-v1");
    assert("ext-data-control-v1"@ != "wlr-data-control-unstable-v1"@) by {
        assert("ext-data-control-v1"@[0] != "wlr-data-control-unstable-v1"@[0]);
    }
}

/// Law: the reconnect tries argument reads the decimal text of any number as that
/// number of tries, and `inf` as infinity.
pub proof fn law_reconnect_tries_argument_reads(n: u64)
    ensures
        spec_reconnect_tries_argument(Some(crate::decimal::decimal_text(n as nat)))
            == Ok::<NumberOrInf<u64>, ArgumentProblem>(NumberOrInf::Number(n)),
        spec_reconnect_tries_argument(Some("inf"@)) == Ok::<NumberOrInf<u64>, ArgumentProblem>(NumberOrInf::Inf),
        spec_reconnect_tries_argument(Some("INF"@)) == Ok::<NumberOrInf<u64>, ArgumentProblem>(NumberOrInf::Inf),
{
    law_number_or_inf_reads_decimal(n);
    reveal_strlit("inf");
    reveal_strlit("INF");
    assert(spec_eq_ignore_ascii_case("inf"@, "inf"@));
    assert(spec_eq_ignore_ascii_case("INF"@, "inf"@));
}

/// Law: the number arguments read the decimal text of a number as that number when it
/// lies in the allowed range, and refuse it as out of range otherwise; the size limit
/// reads any non-zero number as that many bytes and refuses zero.
pub proof fn law_number_arguments_read_decimal(n: u64)
    ensures
        spec_ranged_number(Some(crate::decimal::decimal_text(n as nat)), DEFAULT_WRITE_TIMEOUT_MS, 1, MAX_MILLISECONDS)
            == if 1 <= n && n <= MAX_MILLISECONDS {
            Ok::<u64, ArgumentProblem>(n)
        } else {
            Err(ArgumentProblem::OutOfRange { min: 1, max: MAX_MILLISECONDS })
        },
        spec_ranged_number(Some(crate::decimal::decimal_text(n as nat)), DEFAULT_RECONNECT_DELAY_MS, 0, MAX_MILLISECONDS)
            == if n <= MAX_MILLISECONDS {
            Ok::<u64, ArgumentProblem>(n)
        } else {
            Err(ArgumentProblem::OutOfRange { min: 0, max: MAX_MILLISECONDS })
        },
        spec_size_limit_argument(Some(crate::decimal::decimal_text(n as nat)))
            == if n == 0 {
            Err::<Option<u64>, ArgumentProblem>(ArgumentProblem::Zero)
        } else {
            Ok(Some(n))
        },
{
    crate::decimal::law_parse_decimal_roundtrip(n);
}

} // verus!
