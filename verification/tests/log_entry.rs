use contower::log_entry::{level_color, level_label, log_line, LabelColor, LogEntry, LogLevel};

#[test]
fn labels_and_colors() {
    assert_eq!(level_label(LogLevel::Info), "INFO");
    assert_eq!(level_label(LogLevel::Warning), "WARN");
    assert_eq!(level_label(LogLevel::Error), "ERRO");
    assert_eq!(level_label(LogLevel::Critical), "CRIT");
    assert_eq!(level_color(LogLevel::Info), LabelColor::Green);
    assert_eq!(level_color(LogLevel::Warning), LabelColor::Yellow);
    assert_eq!(level_color(LogLevel::Error), LabelColor::Red);
    assert_eq!(level_color(LogLevel::Critical), LabelColor::Magenta);
}

#[test]
fn line_layout() {
    assert_eq!(log_line("INFO", "01-02|03:04:05.006", "hello"), "INFO [01-02|03:04:05.006] hello");
}

#[test]
fn render_formats_local_time() {
    let entry = LogEntry {
        secs: 86_400 + 3_723,
        nanos: 45_600_000,
        utc_offset_secs: 3_600,
        level: LogLevel::Warning,
        message: "gas_price 7".to_string(),
    };
    let line = entry.render().unwrap();
    let plain = "WARN [01-02|02:02:03.045] gas_price 7";
    let painted = "\x1B[33mWARN\x1B[0m [01-02|02:02:03.045] gas_price 7";
    assert!(line == plain || line == painted, "{:?}", line);
}

#[test]
fn render_rejects_impossible_offsets() {
    let entry = LogEntry {
        secs: 0,
        nanos: 0,
        utc_offset_secs: 86_400,
        level: LogLevel::Info,
        message: String::new(),
    };
    assert_eq!(entry.render(), None);
}
