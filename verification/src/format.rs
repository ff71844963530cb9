//! Formatting one record into a display line.
//!
//! A [`FormattedLine`] is the fully formatted representation of one record:
//! a single text plus contiguous colored spans over it, ready for a
//! rendering backend to draw. Formatting is a pure function of the record,
//! the style, and the column widths passed in; it is computed once per
//! record by the layout cache and is also the text the search predicate
//! runs over.

use vstd::prelude::*;
use vstd::string::StrSliceExecFns;
use crate::level::{Level, level_label};
use crate::record::{LogRecord, RecordView};
use crate::style::{LoggerStyle, LogColor};
use crate::clock::{Timestamp, time_text, format_time};
use crate::textutil::{pad_left, pad_right, pad_left_str, pad_right_str};

verus! {

/// One colored run of a formatted line: the characters of the line's text
/// from `start` (inclusive) to `end` (exclusive), in character positions.
/// `None` for the color means the backend's default text color.
#[derive(Clone, Copy, PartialEq, Eq, Debug)]
pub struct Span {
    pub start: usize,
    pub end: usize,
    pub color: Option<LogColor>,
}

/// The mathematical image of one span, over unbounded positions.
#[verifier::ext_equal]
pub ghost struct SpanView {
    pub start: int,
    pub end: int,
    pub color: Option<LogColor>,
}

impl View for Span {
    type V = SpanView;

    open spec fn view(&self) -> SpanView {
        SpanView { start: self.start as int, end: self.end as int, color: self.color }
    }
}

/// One fully formatted display line: the raw text (also what the search
/// predicate runs over) and its colored spans, which are contiguous and
/// cover the whole text.
pub struct FormattedLine {
    pub text: String,
    pub spans: Vec<Span>,
}

/// The mathematical image of one formatted line.
#[verifier::ext_equal]
pub ghost struct LineView {
    pub text: Seq<char>,
    pub spans: Seq<SpanView>,
}

impl View for FormattedLine {
    type V = LineView;

    open spec fn view(&self) -> LineView {
        LineView { text: self.text@, spans: self.spans@.map_values(|s: Span| s@) }
    }
}

/// The timestamp column's color: the warning or error color for those two
/// levels, the default text color otherwise. The message takes the same
/// color.
pub open spec fn accent_color(level: Level, style: LoggerStyle) -> Option<LogColor> {
    match level {
        Level::Warn => Some(style.warn_color),
        Level::Error => Some(style.error_color),
        _ => None,
    }
}

/// The color of the level-and-target prefix: the warning or error color for
/// those two levels, the highlight color otherwise.
pub open spec fn head_color(level: Level, style: LoggerStyle) -> LogColor {
    match level {
        Level::Warn => style.warn_color,
        Level::Error => style.error_color,
        _ => style.highlight_color,
    }
}

/// The bracketed level prefix of a line, `[ERROR] ` and the like, or
/// nothing when levels are not included.
pub open spec fn level_prefix(level: Level, style: LoggerStyle) -> Seq<char> {
    if style.include_level {
        seq!['['] + level_label(level) + "] "@
    } else {
        Seq::empty()
    }
}

/// The target (category) prefix of a line, padded to the widest category
/// seen so far and followed by `: `, or nothing when targets are not
/// included.
pub open spec fn target_prefix(target: Seq<char>, style: LoggerStyle, max_cat_len: int) -> Seq<
    char,
> {
    if style.include_target {
        pad_right(target, max_cat_len) + ": "@
    } else {
        Seq::empty()
    }
}

/// The formatted line of one record: the timestamp column right-aligned to
/// `time_padding`, then the level and target prefixes, then the message;
/// three spans color them.
pub open spec fn line_of(
    rec: RecordView,
    style: LoggerStyle,
    max_cat_len: int,
    time_padding: int,
    start_time: Timestamp,
) -> LineView {
    let time_s = pad_left(time_text(rec.time, style, start_time), time_padding);
    let head_s = level_prefix(rec.level, style) + target_prefix(rec.target, style, max_cat_len);
    let text = time_s + head_s + rec.message;
    LineView {
        text,
        spans: seq![
            SpanView { start: 0, end: time_s.len() as int, color: accent_color(rec.level, style) },
            SpanView {
                start: time_s.len() as int,
                end: (time_s.len() + head_s.len()) as int,
                color: Some(head_color(rec.level, style)),
            },
            SpanView {
                start: (time_s.len() + head_s.len()) as int,
                end: text.len() as int,
                color: accent_color(rec.level, style),
            },
        ],
    }
}

/// Formats one record for display. `max_category_length` is the running
/// maximum category width the store tracks; `time_padding` is the width of
/// the timestamp column, taken from the newest record each frame.
pub fn format_record(
    rec: &LogRecord,
    style: &LoggerStyle,
    max_category_length: usize,
    time_padding: usize,
    start_time: Timestamp,
) -> (line: FormattedLine)
    ensures
        line@ == line_of(rec@, *style, max_category_length as int, time_padding as int, start_time),
{
    proof {
        reveal_strlit("[");
        reveal_strlit("] ");
        reveal_strlit(": ");
    }
    let time_str = format_time(rec.time, style, start_time);
    let mut text = pad_left_str(time_str.as_str(), time_padding);
    let time_len = text.unicode_len();

    let mut head = String::new();
    if style.include_level {
        head.append("[");
        head.append(rec.level.label());
        head.append("] ");
    }
    if style.include_target {
        let padded_target = pad_right_str(rec.target.as_str(), max_category_length);
        head.append(padded_target.as_str());
        head.append(": ");
    }
    text.append(head.as_str());
    let head_end = text.unicode_len();
    text.append(rec.message.as_str());
    let msg_end = text.unicode_len();

    let accent = match rec.level {
        Level::Warn => Some(style.warn_color),
        Level::Error => Some(style.error_color),
        _ => None,
    };
    let head_col = match rec.level {
        Level::Warn => style.warn_color,
        Level::Error => style.error_color,
        _ => style.highlight_color,
    };

    let mut spans: Vec<Span> = Vec::new();
    spans.push(Span { start: 0, end: time_len, color: accent });
    spans.push(Span { start: time_len, end: head_end, color: Some(head_col) });
    spans.push(Span { start: head_end, end: msg_end, color: accent });

    let line = FormattedLine { text, spans };
    proof {
        let target = line_of(
            rec@,
            *style,
            max_category_length as int,
            time_padding as int,
            start_time,
        );
        assert(line@.text =~= target.text);
        assert(line@.spans =~= target.spans);
        assert(line@ =~= target);
    }
    line
}

} // verus!
