use wl_clip_persist::logger::{
    format_log_record, get_clipboard_type_str, init_logger, level_style, level_text, log_default_target,
    log_seat_target, log_text_data, truncated_data_text, LevelColor, LevelFilter, LogLevel, MimeTypesWithData,
};

#[test]
fn logger_config() {
    let c = init_logger(true);
    assert_eq!(c.timestamp_format, "%Y-%m-%dT%H:%M:%S.%3f");
    assert!(c.with_timestamps);
    assert_eq!(c.default_filter, LevelFilter::Info);
    assert!(!init_logger(false).with_timestamps);
}

#[test]
fn level_texts_and_styles() {
    assert_eq!(level_text(&LogLevel::Trace), "TRACE");
    assert_eq!(level_text(&LogLevel::Debug), "DEBUG");
    assert_eq!(level_text(&LogLevel::Info), "INFO ");
    assert_eq!(level_text(&LogLevel::Warn), "WARN ");
    assert_eq!(level_text(&LogLevel::Error), "ERROR");
    assert_eq!(level_style(&LogLevel::Trace), LevelColor::Magenta);
    assert_eq!(level_style(&LogLevel::Debug), LevelColor::Blue);
    assert_eq!(level_style(&LogLevel::Info), LevelColor::Green);
    assert_eq!(level_style(&LogLevel::Warn), LevelColor::Yellow);
    assert_eq!(level_style(&LogLevel::Error), LevelColor::Red);
}

#[test]
fn log_targets() {
    assert_eq!(log_default_target(), "wl-clip-persist");
    assert_eq!(log_seat_target(0), "wl-clip-persist Seat 0");
    assert_eq!(log_seat_target(17), "wl-clip-persist Seat 17");
    assert_eq!(log_seat_target(u32::MAX), "wl-clip-persist Seat 4294967295");
}

#[test]
fn clipboard_type_strs() {
    assert_eq!(get_clipboard_type_str(true, true), "Primary");
    assert_eq!(get_clipboard_type_str(true, false), "primary");
    assert_eq!(get_clipboard_type_str(false, true), "Regular");
    assert_eq!(get_clipboard_type_str(false, false), "regular");
}

#[test]
fn log_line_with_time_for_main_target() {
    let line = format_log_record(Some("2024-01-02T03:04:05.678".to_string()), "wl-clip-persist", LogLevel::Info, "hello");
    assert_eq!(line.unwrap(), "2024-01-02T03:04:05.678 \x1b[32mINFO \x1b[0m main > hello\n");
}

#[test]
fn log_line_for_seat_target_without_time() {
    let line = format_log_record(None, "wl-clip-persist Seat 3", LogLevel::Error, "bad");
    assert_eq!(line.unwrap(), "\x1b[31mERROR\x1b[0m Seat 3 > bad\n");
}

#[test]
fn log_line_indents_following_lines() {
    let line = format_log_record(None, "wl-clip-persist", LogLevel::Warn, "first\nsecond\r\nthird\n");
    assert_eq!(line.unwrap(), "\x1b[33mWARN \x1b[0m main > first\n  second\n  third\n");
    let line = format_log_record(None, "wl-clip-persist", LogLevel::Debug, "a\n\nb\r");
    assert_eq!(line.unwrap(), "\x1b[34mDEBUG\x1b[0m main > a\n  \n  b\r\n");
    let line = format_log_record(None, "wl-clip-persist", LogLevel::Trace, "");
    assert_eq!(line.unwrap(), "\x1b[35mTRACE\x1b[0m main > \n");
}

#[test]
fn log_line_matches_std_lines() {
    for message in ["", "\n", "x\n", "a\r\nb", "\r\n\r\n", "one\ntwo\n\nthree", "bare\rcr"] {
        let expected_message = message.lines().collect::<Vec<_>>().join("\n  ");
        let line = format_log_record(None, "wl-clip-persist", LogLevel::Info, message).unwrap();
        assert_eq!(line, format!("\x1b[32mINFO \x1b[0m main > {}\n", expected_message));
    }
}

#[test]
fn log_line_other_targets_are_skipped() {
    assert_eq!(format_log_record(None, "tokio::runtime", LogLevel::Info, "x"), None);
    assert_eq!(format_log_record(None, "wl-clip", LogLevel::Info, "x"), None);
}

#[test]
fn log_line_prefix_without_space_shows_main() {
    let line = format_log_record(None, "wl-clip-persist::wayland", LogLevel::Info, "x");
    assert_eq!(line.unwrap(), "\x1b[32mINFO \x1b[0m main > x\n");
}

#[test]
fn truncated_data_short() {
    assert_eq!(truncated_data_text(&[]), "[]");
    assert_eq!(truncated_data_text(&[7]), "[7]");
    assert_eq!(truncated_data_text(&[104, 105, 0, 255]), "[104, 105, 0, 255]");
    let thirty: Vec<u8> = (1..=30).collect();
    let expected = format!("[{}]", thirty.iter().map(|x| x.to_string()).collect::<Vec<_>>().join(", "));
    assert_eq!(truncated_data_text(&thirty), expected);
}

#[test]
fn truncated_data_long() {
    let data: Vec<u8> = (1..=31).collect();
    let shown: Vec<String> = data.iter().take(29).map(|x| x.to_string()).collect();
    assert_eq!(truncated_data_text(&data), format!("[{}, ...]", shown.join(", ")));
}

#[test]
fn text_data_messages() {
    let mut data = MimeTypesWithData::new(5, false);
    data.insert("image/png".to_string(), vec![1, 2]);
    data.insert("TEXT".to_string(), vec![9]);
    data.insert("text/plain".to_string(), vec![104]);
    data.insert("TEXT".to_string(), vec![104, 105]);
    assert_eq!(data.seat_name(), 5);
    assert!(!data.is_primary_clipboard());
    assert_eq!(data.get("TEXT"), Some(&vec![104, 105]));
    assert_eq!(data.get("STRING"), None);
    let records = log_text_data(&data);
    let messages: Vec<String> = records.iter().map(|r| r.message.clone()).collect();
    assert_eq!(
        messages,
        vec![
            "Regular clipboard successfully read data for mime type \"text/plain\": [104]".to_string(),
            "Regular clipboard successfully read data for mime type \"TEXT\": [104, 105]".to_string(),
        ]
    );
    for record in &records {
        assert_eq!(record.level, LogLevel::Trace);
        assert_eq!(record.target, "wl-clip-persist Seat 5");
    }
}

#[test]
fn text_data_messages_none() {
    let data = MimeTypesWithData::new(1, true);
    assert!(log_text_data(&data).is_empty());
}

#[test]
fn text_data_primary_title() {
    let mut data = MimeTypesWithData::new(2, true);
    data.insert("UTF8_STRING".to_string(), vec![]);
    let records = log_text_data(&data);
    assert_eq!(records.len(), 1);
    assert_eq!(records[0].message, "Primary clipboard successfully read data for mime type \"UTF8_STRING\": []");
}
