use melody::tabs::log::{write_line, write_stamp, LogMessage, LogTab, LogType};

#[test]
fn stamp_has_date_and_time_without_leading_zeros() {
    assert_eq!(write_stamp("2024-01-05", 9, 3, 0), "[2024-01-05 9:3:0]");
    assert_eq!(write_stamp("2024-12-31", 23, 59, 58), "[2024-12-31 23:59:58]");
}

#[test]
fn line_has_stamp_kind_and_text() {
    assert_eq!(write_line("[d 1:2:3]", "WARN", "low disk"), "[d 1:2:3] [WARN] low disk");
    assert_eq!(write_line("", "", ""), " [] ");
}

#[test]
fn messages_carry_their_kind_and_end_with_their_text() {
    let info = LogMessage::info("started".to_string());
    assert_eq!(info.log_type(), LogType::Info);
    assert!(info.text().starts_with('['));
    assert!(info.text().ends_with("] [INFO] started"));
    let warn = LogMessage::warn("careful".to_string());
    assert_eq!(warn.log_type(), LogType::Warn);
    assert!(warn.text().ends_with("] [WARN] careful"));
    let error = LogMessage::error("broken".to_string());
    assert_eq!(error.log_type(), LogType::Error);
    assert!(error.text().ends_with("] [ERROR] broken"));
}

#[test]
fn format_text_stamps_the_line() {
    let text = LogMessage::format_text("hello".to_string(), "INFO");
    assert!(text.starts_with('['));
    let stamp_end = text.find(']').unwrap();
    assert_eq!(&text[stamp_end..], "] [INFO] hello");
    let inside = &text[1..stamp_end];
    let parts: Vec<&str> = inside.split(' ').collect();
    assert_eq!(parts.len(), 2);
    assert_eq!(parts[1].split(':').count(), 3);
}

#[test]
fn with_line_keeps_the_line_as_it_is() {
    let log = LogMessage::with_line("plain".to_string(), LogType::Warn);
    assert_eq!(log.text(), "plain");
    assert_eq!(log.log_type(), LogType::Warn);
}

#[test]
fn log_tab_builds() {
    assert_eq!(LogTab::build(), LogTab);
}
