use egui_logger::{format_record, format_time, Level, LogColor, LogRecord, LoggerStyle,
    TimeFormat, TimePrecision, Timestamp};

fn style_with(format: TimeFormat, precision: TimePrecision) -> LoggerStyle {
    let mut style = LoggerStyle::default();
    style.time_format = format;
    style.time_precision = precision;
    style
}

fn origin() -> Timestamp {
    Timestamp::new(0, 0, 0, 0, 0)
}

#[test]
fn since_start_seconds_only() {
    let style = style_with(TimeFormat::SinceStart, TimePrecision::Seconds);
    let t = Timestamp::new(5_000, 0, 0, 5, 0);
    assert_eq!(format_time(t, &style, origin()), "5s ");
}

#[test]
fn since_start_minutes_and_seconds() {
    let style = style_with(TimeFormat::SinceStart, TimePrecision::Seconds);
    let t = Timestamp::new(65_000, 0, 1, 5, 0);
    assert_eq!(format_time(t, &style, origin()), "1m 5s ");
}

#[test]
fn since_start_hours_minutes_seconds() {
    let style = style_with(TimeFormat::SinceStart, TimePrecision::Seconds);
    let t = Timestamp::new(3_723_000, 1, 2, 3, 0);
    assert_eq!(format_time(t, &style, origin()), "1h 2m 3s ");
}

#[test]
fn since_start_millis_only() {
    let style = style_with(TimeFormat::SinceStart, TimePrecision::Milliseconds);
    let t = Timestamp::new(42, 0, 0, 0, 42);
    assert_eq!(format_time(t, &style, origin()), "42ms ");
}

#[test]
fn since_start_seconds_and_millis() {
    let style = style_with(TimeFormat::SinceStart, TimePrecision::Milliseconds);
    let t = Timestamp::new(5_042, 0, 0, 5, 42);
    assert_eq!(format_time(t, &style, origin()), "5s 42ms ");
}

#[test]
fn since_start_full_millis() {
    let style = style_with(TimeFormat::SinceStart, TimePrecision::Milliseconds);
    let t = Timestamp::new(3_723_042, 1, 2, 3, 42);
    assert_eq!(format_time(t, &style, origin()), "1h 2m 3s 42ms ");
}

#[test]
fn since_start_clamps_below_at_zero() {
    let style = style_with(TimeFormat::SinceStart, TimePrecision::Seconds);
    let start = Timestamp::new(10_000, 0, 0, 10, 0);
    let t = Timestamp::new(4_000, 0, 0, 4, 0);
    assert_eq!(format_time(t, &style, start), "0s ");
}

#[test]
fn local_time_seconds() {
    let style = style_with(TimeFormat::LocalTime, TimePrecision::Seconds);
    let t = Timestamp::new(0, 12, 34, 56, 789);
    assert_eq!(format_time(t, &style, origin()), "12:34:56 ");
}

#[test]
fn local_time_millis() {
    let style = style_with(TimeFormat::LocalTime, TimePrecision::Milliseconds);
    let t = Timestamp::new(0, 12, 34, 56, 789);
    assert_eq!(format_time(t, &style, origin()), "12:34:56.789 ");
}

#[test]
fn local_time_zero_padded() {
    let style = style_with(TimeFormat::LocalTime, TimePrecision::Milliseconds);
    let t = Timestamp::new(0, 1, 2, 3, 4);
    assert_eq!(format_time(t, &style, origin()), "01:02:03.004 ");
}

#[test]
fn utc_epoch_seconds() {
    let style = style_with(TimeFormat::Utc, TimePrecision::Seconds);
    let t = Timestamp::new(0, 0, 0, 0, 0);
    assert_eq!(format_time(t, &style, origin()), "1970-01-01T00:00:00Z ");
}

#[test]
fn utc_with_millis() {
    let style = style_with(TimeFormat::Utc, TimePrecision::Milliseconds);
    let t = Timestamp::new(947_638_923_004, 1, 2, 3, 4);
    assert_eq!(format_time(t, &style, origin()), "2000-01-12T01:02:03.004Z ");
}

#[test]
fn utc_out_of_range_renders_no_timestamp() {
    let style = style_with(TimeFormat::Utc, TimePrecision::Seconds);
    let t = Timestamp::new(i64::MIN, 0, 0, 0, 0);
    assert_eq!(format_time(t, &style, origin()), " ");
}

#[test]
fn leap_second_millisecond_wraps_into_fraction() {
    let style = style_with(TimeFormat::LocalTime, TimePrecision::Milliseconds);
    let t = Timestamp::new(0, 23, 59, 59, 1500);
    assert_eq!(format_time(t, &style, origin()), "23:59:59.500 ");
}

#[test]
fn hidden_time_is_empty() {
    let style = style_with(TimeFormat::Hide, TimePrecision::Seconds);
    let t = Timestamp::new(123_456, 1, 2, 3, 4);
    assert_eq!(format_time(t, &style, origin()), "");
}

#[test]
fn formatted_line_layout_and_spans() {
    let style = style_with(TimeFormat::LocalTime, TimePrecision::Seconds);
    let rec = LogRecord::new(
        Level::Info,
        "hello".to_string(),
        "core".to_string(),
        Timestamp::new(0, 0, 0, 0, 0),
    );
    let line = format_record(&rec, &style, 4, 9, origin());
    assert_eq!(line.text, "00:00:00 [INFO ] core: hello");
    assert_eq!(line.spans.len(), 3);
    assert_eq!((line.spans[0].start, line.spans[0].end), (0, 9));
    assert_eq!((line.spans[1].start, line.spans[1].end), (9, 23));
    assert_eq!((line.spans[2].start, line.spans[2].end), (23, 28));
    assert_eq!(line.spans[0].color, None);
    assert_eq!(line.spans[1].color, Some(LogColor::rgb(220, 220, 220)));
    assert_eq!(line.spans[2].color, None);
}

#[test]
fn formatted_line_pads_target_column() {
    let style = style_with(TimeFormat::Hide, TimePrecision::Seconds);
    let rec = LogRecord::new(
        Level::Info,
        "m".to_string(),
        "db".to_string(),
        Timestamp::new(0, 0, 0, 0, 0),
    );
    let line = format_record(&rec, &style, 6, 0, origin());
    assert_eq!(line.text, "[INFO ] db    : m");
}

#[test]
fn formatted_line_right_aligns_time() {
    let style = style_with(TimeFormat::SinceStart, TimePrecision::Seconds);
    let rec = LogRecord::new(
        Level::Info,
        "m".to_string(),
        "t".to_string(),
        Timestamp::new(5_000, 0, 0, 5, 0),
    );
    let line = format_record(&rec, &style, 1, 7, origin());
    assert_eq!(line.text, "    5s [INFO ] t: m");
}

#[test]
fn warn_and_error_lines_are_colored() {
    let style = style_with(TimeFormat::Hide, TimePrecision::Seconds);
    let warn = LogRecord::new(
        Level::Warn,
        "w".to_string(),
        "t".to_string(),
        Timestamp::new(0, 0, 0, 0, 0),
    );
    let warn_line = format_record(&warn, &style, 1, 0, origin());
    assert_eq!(warn_line.text, "[WARN ] t: w");
    assert_eq!(warn_line.spans[0].color, Some(LogColor::rgb(255, 255, 0)));
    assert_eq!(warn_line.spans[1].color, Some(LogColor::rgb(255, 255, 0)));
    assert_eq!(warn_line.spans[2].color, Some(LogColor::rgb(255, 255, 0)));

    let err = LogRecord::new(
        Level::Error,
        "e".to_string(),
        "t".to_string(),
        Timestamp::new(0, 0, 0, 0, 0),
    );
    let err_line = format_record(&err, &style, 1, 0, origin());
    assert_eq!(err_line.text, "[ERROR] t: e");
    assert_eq!(err_line.spans[2].color, Some(LogColor::rgb(255, 0, 0)));
}

#[test]
fn level_excluded_from_line_when_disabled() {
    let mut style = style_with(TimeFormat::Hide, TimePrecision::Seconds);
    style.include_level = false;
    style.include_target = false;
    let rec = LogRecord::new(
        Level::Info,
        "just the message".to_string(),
        "t".to_string(),
        Timestamp::new(0, 0, 0, 0, 0),
    );
    let line = format_record(&rec, &style, 1, 0, origin());
    assert_eq!(line.text, "just the message");
}
