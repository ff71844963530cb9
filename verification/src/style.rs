//! Display options for the log view: which columns and controls are shown,
//! how timestamps are rendered, and the colors given to formatted spans.

use vstd::prelude::*;

verus! {

/// An RGBA color handed to the rendering backend along with each span.
#[derive(Clone, Copy, PartialEq, Eq, Structural, Debug)]
pub struct LogColor {
    pub r: u8,
    pub g: u8,
    pub b: u8,
    pub a: u8,
}

impl LogColor {
    /// An opaque color from its red, green and blue components.
    pub fn rgb(r: u8, g: u8, b: u8) -> (c: LogColor)
        ensures
            c == (LogColor { r, g, b, a: 255u8 }),
    {
        LogColor { r, g, b, a: 255 }
    }
}

/// How the timestamp column renders an instant.
#[derive(Clone, Copy, PartialEq, Eq, Structural, Debug)]
pub enum TimeFormat {
    /// RFC 3339 in UTC.
    Utc,
    /// Wall-clock time of day in the local time zone.
    LocalTime,
    /// Time elapsed since the store was created.
    SinceStart,
    /// No timestamp column.
    Hide,
}

/// Whether timestamps carry milliseconds.
#[derive(Clone, Copy, PartialEq, Eq, Structural, Debug)]
pub enum TimePrecision {
    Seconds,
    Milliseconds,
}

/// Cosmetic and structural options of one log view. All fields take part in
/// formatting or in which controls the host draws; none affects which
/// records are retained.
#[derive(Clone, Copy, PartialEq, Eq, Structural, Debug)]
pub struct LoggerStyle {
    pub enable_regex: bool,
    pub enable_ctx_menu: bool,
    pub enable_log_count: bool,
    pub enable_copy_button: bool,
    pub enable_search: bool,
    pub enable_max_log_output: bool,
    pub enable_levels_button: bool,
    pub enable_categories_button: bool,
    pub enable_time_button: bool,
    pub time_precision: TimePrecision,
    pub show_target: bool,
    pub time_format: TimeFormat,
    pub include_target: bool,
    pub include_level: bool,
    /// When set, formatted lines are cached and only new records are
    /// formatted each frame; when clear, every line is reformatted on every
    /// refresh, trading work for always-current column widths.
    pub enable_cache_layouts: bool,
    pub warn_color: LogColor,
    pub error_color: LogColor,
    pub highlight_color: LogColor,
}

/// The default style: everything enabled, local time in seconds, warnings
/// yellow, errors red, other prefixes light gray, layout caching on.
pub open spec fn standard_style() -> LoggerStyle {
    LoggerStyle {
        enable_regex: true,
        enable_ctx_menu: true,
        enable_log_count: true,
        enable_copy_button: true,
        enable_search: true,
        enable_max_log_output: true,
        enable_levels_button: true,
        enable_categories_button: true,
        enable_time_button: true,
        time_precision: TimePrecision::Seconds,
        show_target: true,
        time_format: TimeFormat::LocalTime,
        include_target: true,
        include_level: true,
        enable_cache_layouts: true,
        warn_color: LogColor { r: 255, g: 255, b: 0, a: 255 },
        error_color: LogColor { r: 255, g: 0, b: 0, a: 255 },
        highlight_color: LogColor { r: 220, g: 220, b: 220, a: 255 },
    }
}

impl Default for LoggerStyle {
    fn default() -> (s: Self)
        ensures
            s == standard_style(),
    {
        LoggerStyle {
            enable_regex: true,
            enable_ctx_menu: true,
            enable_log_count: true,
            enable_copy_button: true,
            enable_search: true,
            enable_max_log_output: true,
            enable_levels_button: true,
            enable_categories_button: true,
            enable_time_button: true,
            time_precision: TimePrecision::Seconds,
            show_target: true,
            time_format: TimeFormat::LocalTime,
            include_target: true,
            include_level: true,
            enable_cache_layouts: true,
            warn_color: LogColor { r: 255, g: 255, b: 0, a: 255 },
            error_color: LogColor { r: 255, g: 0, b: 0, a: 255 },
            highlight_color: LogColor { r: 220, g: 220, b: 220, a: 255 },
        }
    }
}

} // verus!
