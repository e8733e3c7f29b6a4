use wl_clip_persist::decimal::ParseNumberError;
use wl_clip_persist::settings::{
    check_mime_type_regex_argument, get_settings, parse_clipboard_argument, parse_force_protocol_argument,
    parse_reconnect_delay_argument, parse_reconnect_tries_argument, parse_selection_size_limit_argument,
    parse_write_timeout_argument, ArgumentProblem, ClipboardProtocol, ClipboardType, NumberOrInf, SettingsArgument,
    SettingsArguments, SettingsError,
};

fn arguments(clipboard: &str) -> SettingsArguments {
    SettingsArguments {
        clipboard: Some(clipboard.to_string()),
        write_timeout: None,
        ignore_event_on_error: false,
        selection_size_limit: None,
        all_mime_type_regex: None,
        reconnect_tries: None,
        reconnect_delay: None,
        force_protocol: None,
        disable_workaround_ignore_mime_types: false,
        disable_workaround_order_mime_type_requests: false,
    }
}

fn argument_error(args: &SettingsArguments) -> (SettingsArgument, ArgumentProblem) {
    match get_settings(args) {
        Err(SettingsError::Argument(a, p)) => (a, p),
        other => panic!("expected an argument error, got {:?}", other.map(|_| ())),
    }
}

#[test]
fn clipboard_type_selections() {
    assert!(ClipboardType::Primary.primary());
    assert!(!ClipboardType::Primary.regular());
    assert!(ClipboardType::Regular.regular());
    assert!(!ClipboardType::Regular.primary());
    assert!(ClipboardType::Both.primary());
    assert!(ClipboardType::Both.regular());
}

#[test]
fn clipboard_type_names() {
    assert_eq!(ClipboardType::from_value_name("regular"), Some(ClipboardType::Regular));
    assert_eq!(ClipboardType::from_value_name("primary"), Some(ClipboardType::Primary));
    assert_eq!(ClipboardType::from_value_name("both"), Some(ClipboardType::Both));
    assert_eq!(ClipboardType::from_value_name("Both"), None);
    assert_eq!(ClipboardType::from_value_name(""), None);
}

#[test]
fn clipboard_protocol_names() {
    assert_eq!(
        ClipboardProtocol::from_value_name("ext-data-control-v1"),
        Some(ClipboardProtocol::ExtDataControlV1)
    );
    assert_eq!(
        ClipboardProtocol::from_value_name("wlr-data-control-unstable-v1"),
        Some(ClipboardProtocol::WlrDataControlUnstableV1)
    );
    assert_eq!(ClipboardProtocol::from_value_name("wlr"), None);
}

#[test]
fn number_or_inf_reads_inf_in_any_case() {
    assert_eq!(NumberOrInf::<u64>::from_str("inf"), Ok(NumberOrInf::Inf));
    assert_eq!(NumberOrInf::<u64>::from_str("INF"), Ok(NumberOrInf::Inf));
    assert_eq!(NumberOrInf::<u64>::from_str("iNf"), Ok(NumberOrInf::Inf));
    assert_eq!(NumberOrInf::<u64>::from_str("infinity"), Err(ParseNumberError::InvalidDigit));
}

#[test]
fn number_or_inf_reads_numbers() {
    assert_eq!(NumberOrInf::<u64>::from_str("0"), Ok(NumberOrInf::Number(0)));
    assert_eq!(NumberOrInf::<u64>::from_str("42"), Ok(NumberOrInf::Number(42)));
    assert_eq!(NumberOrInf::<u64>::from_str("+7"), Ok(NumberOrInf::Number(7)));
    assert_eq!(
        NumberOrInf::<u64>::from_str("18446744073709551615"),
        Ok(NumberOrInf::Number(u64::MAX))
    );
}

#[test]
fn number_or_inf_errors() {
    assert_eq!(NumberOrInf::<u64>::from_str(""), Err(ParseNumberError::Empty));
    assert_eq!(NumberOrInf::<u64>::from_str("+"), Err(ParseNumberError::InvalidDigit));
    assert_eq!(NumberOrInf::<u64>::from_str("-"), Err(ParseNumberError::InvalidDigit));
    assert_eq!(NumberOrInf::<u64>::from_str("-1"), Err(ParseNumberError::InvalidDigit));
    assert_eq!(NumberOrInf::<u64>::from_str(" 1"), Err(ParseNumberError::InvalidDigit));
    assert_eq!(NumberOrInf::<u64>::from_str("1x"), Err(ParseNumberError::InvalidDigit));
    assert_eq!(
        NumberOrInf::<u64>::from_str("18446744073709551616"),
        Err(ParseNumberError::PosOverflow)
    );
}

#[test]
fn number_parsing_agrees_with_std() {
    for text in ["", "+", "-", "0", "+0", "007", "12a", "-3", "99999999999999999999", "18446744073709551615", "é"] {
        let ours = NumberOrInf::<u64>::from_str(text);
        let std_result = text.parse::<u64>();
        match (ours, std_result) {
            (Ok(NumberOrInf::Number(a)), Ok(b)) => assert_eq!(a, b),
            (Err(e), Err(s)) => assert_eq!(e.message(), s.to_string()),
            other => panic!("disagreement on {:?}: {:?}", text, other),
        }
    }
}

#[test]
fn settings_defaults() {
    let s = get_settings(&arguments("both")).unwrap();
    assert_eq!(s.clipboard_type, ClipboardType::Both);
    assert_eq!(s.write_timeout_ms, 3000);
    assert!(!s.ignore_selection_event_on_error);
    assert_eq!(s.selection_size_limit_bytes, None);
    assert!(s.all_mime_type_regex.is_none());
    assert_eq!(s.reconnect_tries, NumberOrInf::Number(0));
    assert_eq!(s.reconnect_delay_ms, 100);
    assert_eq!(s.force_protocol, None);
    assert!(!s.disable_workaround_ignore_mime_types);
    assert!(!s.disable_workaround_order_mime_type_requests);
}

#[test]
fn settings_given_values() {
    let mut args = arguments("primary");
    args.write_timeout = Some("1".to_string());
    args.ignore_event_on_error = true;
    args.selection_size_limit = Some("1048576".to_string());
    args.all_mime_type_regex = Some("^text/.*$".to_string());
    args.reconnect_tries = Some("Inf".to_string());
    args.reconnect_delay = Some("0".to_string());
    args.force_protocol = Some("wlr-data-control-unstable-v1".to_string());
    args.disable_workaround_ignore_mime_types = true;
    args.disable_workaround_order_mime_type_requests = true;
    let s = get_settings(&args).unwrap();
    assert_eq!(s.clipboard_type, ClipboardType::Primary);
    assert_eq!(s.write_timeout_ms, 1);
    assert!(s.ignore_selection_event_on_error);
    assert_eq!(s.selection_size_limit_bytes, Some(1048576));
    let regex = s.all_mime_type_regex.as_ref().unwrap();
    assert_eq!(regex.as_str(), "^text/.*$");
    assert!(regex.regex().is_match("text/plain").unwrap());
    assert!(!regex.regex().is_match("image/png").unwrap());
    let copy = s.clone();
    assert_eq!(copy.all_mime_type_regex.unwrap().as_str(), "^text/.*$");
    assert_eq!(s.reconnect_tries, NumberOrInf::Inf);
    assert_eq!(s.reconnect_delay_ms, 0);
    assert_eq!(s.force_protocol, Some(ClipboardProtocol::WlrDataControlUnstableV1));
    assert!(s.disable_workaround_ignore_mime_types);
    assert!(s.disable_workaround_order_mime_type_requests);
}

#[test]
fn settings_missing_clipboard() {
    let mut args = arguments("both");
    args.clipboard = None;
    assert_eq!(argument_error(&args), (SettingsArgument::Clipboard, ArgumentProblem::Missing));
}

#[test]
fn settings_unknown_clipboard() {
    assert_eq!(
        argument_error(&arguments("secondary")),
        (SettingsArgument::Clipboard, ArgumentProblem::UnknownValue)
    );
}

#[test]
fn settings_write_timeout_range() {
    let mut args = arguments("both");
    args.write_timeout = Some("0".to_string());
    assert_eq!(
        argument_error(&args),
        (SettingsArgument::WriteTimeout, ArgumentProblem::OutOfRange { min: 1, max: 2147483647 })
    );
    args.write_timeout = Some("2147483648".to_string());
    assert_eq!(
        argument_error(&args),
        (SettingsArgument::WriteTimeout, ArgumentProblem::OutOfRange { min: 1, max: 2147483647 })
    );
    args.write_timeout = Some("2147483647".to_string());
    assert_eq!(get_settings(&args).unwrap().write_timeout_ms, 2147483647);
    args.write_timeout = Some("abc".to_string());
    assert_eq!(
        argument_error(&args),
        (SettingsArgument::WriteTimeout, ArgumentProblem::Number(ParseNumberError::InvalidDigit))
    );
}

#[test]
fn settings_size_limit_zero() {
    let mut args = arguments("both");
    args.selection_size_limit = Some("0".to_string());
    assert_eq!(argument_error(&args), (SettingsArgument::SelectionSizeLimit, ArgumentProblem::Zero));
}

#[test]
fn settings_empty_regex() {
    let mut args = arguments("both");
    args.all_mime_type_regex = Some(String::new());
    assert_eq!(argument_error(&args), (SettingsArgument::AllMimeTypeRegex, ArgumentProblem::Empty));
}

#[test]
fn settings_invalid_regex() {
    let mut args = arguments("both");
    args.all_mime_type_regex = Some("(".to_string());
    assert!(matches!(get_settings(&args), Err(SettingsError::InvalidRegex(_))));
}

#[test]
fn settings_invalid_regex_reported_after_other_errors() {
    let mut args = arguments("both");
    args.all_mime_type_regex = Some("(".to_string());
    args.reconnect_delay = Some("-5".to_string());
    assert_eq!(
        argument_error(&args),
        (SettingsArgument::ReconnectDelay, ArgumentProblem::Number(ParseNumberError::InvalidDigit))
    );
}

#[test]
fn settings_reconnect_tries_errors() {
    let mut args = arguments("both");
    args.reconnect_tries = Some("".to_string());
    assert_eq!(
        argument_error(&args),
        (SettingsArgument::ReconnectTries, ArgumentProblem::Number(ParseNumberError::Empty))
    );
}

#[test]
fn settings_unknown_protocol() {
    let mut args = arguments("both");
    args.force_protocol = Some("ext-data-control-v2".to_string());
    assert_eq!(argument_error(&args), (SettingsArgument::ForceProtocol, ArgumentProblem::UnknownValue));
}

#[test]
fn argument_value_parsers() {
    assert_eq!(parse_clipboard_argument("both"), Ok(ClipboardType::Both));
    assert_eq!(parse_clipboard_argument("x"), Err(ArgumentProblem::UnknownValue));
    assert_eq!(parse_write_timeout_argument("3000"), Ok(3000));
    assert_eq!(parse_write_timeout_argument("0"), Err(ArgumentProblem::OutOfRange { min: 1, max: 2147483647 }));
    assert_eq!(parse_reconnect_delay_argument("0"), Ok(0));
    assert_eq!(
        parse_reconnect_delay_argument("2147483648"),
        Err(ArgumentProblem::OutOfRange { min: 0, max: 2147483647 })
    );
    assert_eq!(parse_selection_size_limit_argument("5"), Ok(5));
    assert_eq!(parse_selection_size_limit_argument("0"), Err(ArgumentProblem::Zero));
    assert_eq!(check_mime_type_regex_argument(""), Err(ArgumentProblem::Empty));
    assert_eq!(check_mime_type_regex_argument("a"), Ok(()));
    assert_eq!(parse_reconnect_tries_argument("INF"), Ok(NumberOrInf::Inf));
    assert_eq!(
        parse_reconnect_tries_argument("x"),
        Err(ArgumentProblem::Number(ParseNumberError::InvalidDigit))
    );
    assert_eq!(parse_force_protocol_argument("ext-data-control-v1"), Ok(ClipboardProtocol::ExtDataControlV1));
    assert_eq!(parse_force_protocol_argument("v1"), Err(ArgumentProblem::UnknownValue));
}

#[test]
fn settings_missing_clipboard_reported_after_bad_values() {
    let mut args = arguments("both");
    args.clipboard = None;
    args.write_timeout = Some("0".to_string());
    assert_eq!(
        argument_error(&args),
        (SettingsArgument::WriteTimeout, ArgumentProblem::OutOfRange { min: 1, max: 2147483647 })
    );
}

#[test]
fn settings_missing_clipboard_reported_before_bad_regex() {
    let mut args = arguments("both");
    args.clipboard = None;
    args.all_mime_type_regex = Some("(".to_string());
    assert_eq!(argument_error(&args), (SettingsArgument::Clipboard, ArgumentProblem::Missing));
}
