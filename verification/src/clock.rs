//! Instants and timestamp formatting.
//!
//! A [`Timestamp`] carries, as plain integers, everything the formatter
//! reads of an instant: the milliseconds since the Unix epoch (for UTC
//! rendering and elapsed-time arithmetic) and the local wall-clock fields
//! (for local-time rendering). Only taking the current instant and RFC 3339
//! rendering are delegated to the `chrono` crate.

use vstd::prelude::*;
use crate::textutil::{dec_digits, two_digits, three_digits, two_digits_str, three_digits_str,
    u64_to_dec};
use crate::style::{LoggerStyle, TimeFormat, TimePrecision};
use chrono::Timelike;

verus! {

/// One instant: epoch milliseconds plus the local wall-clock reading taken
/// when the instant was captured.
#[derive(Clone, Copy, PartialEq, Eq, Structural, Debug)]
pub struct Timestamp {
    /// Non-leap milliseconds since 1970-01-01T00:00:00Z.
    pub epoch_millis: i64,
    /// Local hour of day.
    pub hour: u8,
    /// Local minute of the hour.
    pub minute: u8,
    /// Local second of the minute.
    pub second: u8,
    /// Millisecond of the second; values of 1000 or more encode a leap
    /// second.
    pub millisecond: u16,
}

impl Timestamp {
    /// The wall-clock fields lie in their calendar ranges.
    pub open spec fn wf(self) -> bool {
        self.hour < 24 && self.minute < 60 && self.second < 60 && self.millisecond < 2000
    }

    /// An instant from its parts.
    pub fn new(epoch_millis: i64, hour: u8, minute: u8, second: u8, millisecond: u16) -> (t:
        Timestamp)
        ensures
            t == (Timestamp { epoch_millis, hour, minute, second, millisecond }),
    {
        Timestamp { epoch_millis, hour, minute, second, millisecond }
    }

    /// The current instant.
    ///
    /// Relies on `chrono::Local::now` and the `chrono::Timelike` accessors:
    /// `hour` is below 24, `minute` and `second` below 60, and `nanosecond`
    /// below 2,000,000,000 (values of 1,000,000,000 or more encode a leap
    /// second), so every field lands in its calendar range.
    #[verifier::external_body]
    pub fn now() -> (t: Timestamp)
        ensures
            t.wf(),
    {
        let n = chrono::Local::now();
        Timestamp {
            epoch_millis: n.timestamp_millis(),
            hour: n.hour() as u8,
            minute: n.minute() as u8,
            second: n.second() as u8,
            millisecond: (n.nanosecond() / 1_000_000) as u16,
        }
    }
}

/// The RFC 3339 rendering, in UTC with a trailing `Z`, of the instant
/// `epoch_millis` milliseconds after the Unix epoch, with or without a
/// milliseconds fraction; a function of the instant alone, exactly as
/// `chrono` renders it.
pub uninterp spec fn rfc3339_utc_of(epoch_millis: int, with_millis: bool) -> Seq<char>;

/// Whether `epoch_millis` lies in the range of instants `chrono` can
/// represent; a function of the value alone.
pub uninterp spec fn rfc3339_in_range(epoch_millis: int) -> bool;

/// Milliseconds of the year 10000 in the proleptic Gregorian calendar; a
/// comfortable bound well inside the range `chrono` documents.
pub const RFC3339_SAFE_MILLIS: i64 = 253_402_300_800_000;

/// Relies on `chrono::DateTime::<Utc>::from_timestamp_millis`, which returns
/// `Some` exactly on the documented representable range (a range that
/// plainly covers the years 1970 through 9999), and on
/// `chrono::DateTime::to_rfc3339_opts`, whose result is a function of the
/// UTC instant and the seconds format alone.
#[verifier::external_body]
fn utc_rfc3339(epoch_millis: i64, with_millis: bool) -> (r: Option<String>)
    ensures
        (r is Some) == rfc3339_in_range(epoch_millis as int),
        (0 <= epoch_millis && epoch_millis < RFC3339_SAFE_MILLIS) ==> r is Some,
        r matches Some(s) ==> s@ == rfc3339_utc_of(epoch_millis as int, with_millis),
{
    match chrono::DateTime::<chrono::Utc>::from_timestamp_millis(epoch_millis) {
        Some(dt) => Some(
            dt.to_rfc3339_opts(
                if with_millis {
                    chrono::SecondsFormat::Millis
                } else {
                    chrono::SecondsFormat::Secs
                },
                true,
            ),
        ),
        None => None,
    }
}

/// The UTC column text: the RFC 3339 rendering where the instant is
/// representable, and empty outside that range.
pub open spec fn utc_text(epoch_millis: int, with_millis: bool) -> Seq<char> {
    if rfc3339_in_range(epoch_millis) {
        rfc3339_utc_of(epoch_millis, with_millis)
    } else {
        Seq::empty()
    }
}

/// The local-time column text: `HH:MM:SS`, with `.mmm` appended under
/// millisecond precision. Leap-second milliseconds wrap into the plain
/// fraction digits.
pub open spec fn local_time_text(t: Timestamp, with_millis: bool) -> Seq<char> {
    let base = two_digits(t.hour as int) + seq![':'] + two_digits(t.minute as int) + seq![':']
        + two_digits(t.second as int);
    if with_millis {
        base + seq!['.'] + three_digits(t.millisecond as int)
    } else {
        base
    }
}

/// Milliseconds elapsed from `start` to `t`, clamped below at zero (a record
/// can never be older than the store) and above at `i64::MAX`.
pub open spec fn elapsed_millis(t: Timestamp, start: Timestamp) -> int {
    let d = t.epoch_millis - start.epoch_millis;
    if d < 0 {
        0
    } else if d > i64::MAX {
        i64::MAX as int
    } else {
        d
    }
}

/// The elapsed-time column text for `elapsed` milliseconds: the largest
/// units that are zero are omitted, as in `3s`, `2m 3s`, `1h 2m 3s`; under
/// millisecond precision a trailing `Nms` part appears and the same rule
/// applies, as in `9ms`, `3s 9ms`. Hours wrap at one day.
pub open spec fn since_start_text(elapsed: int, with_millis: bool) -> Seq<char> {
    let h = (elapsed / 3_600_000) % 24;
    let m = (elapsed / 60_000) % 60;
    let s = (elapsed / 1_000) % 60;
    let ms = elapsed % 1_000;
    if with_millis {
        if h == 0 && m == 0 && s == 0 {
            dec_digits(ms as nat) + "ms"@
        } else if h == 0 && m == 0 {
            dec_digits(s as nat) + "s "@ + dec_digits(ms as nat) + "ms"@
        } else if h == 0 {
            dec_digits(m as nat) + "m "@ + dec_digits(s as nat) + "s "@ + dec_digits(ms as nat)
                + "ms"@
        } else {
            dec_digits(h as nat) + "h "@ + dec_digits(m as nat) + "m "@ + dec_digits(s as nat)
                + "s "@ + dec_digits(ms as nat) + "ms"@
        }
    } else {
        if h == 0 && m == 0 {
            dec_digits(s as nat) + "s"@
        } else if h == 0 {
            dec_digits(m as nat) + "m "@ + dec_digits(s as nat) + "s"@
        } else {
            dec_digits(h as nat) + "h "@ + dec_digits(m as nat) + "m "@ + dec_digits(s as nat)
                + "s"@
        }
    }
}

/// The full timestamp column text for one record under the given style: the
/// chosen rendering followed by one separating space, or nothing at all when
/// the timestamp is hidden.
pub open spec fn time_text(t: Timestamp, style: LoggerStyle, start: Timestamp) -> Seq<char> {
    let with_millis = style.time_precision is Milliseconds;
    match style.time_format {
        TimeFormat::Hide => Seq::empty(),
        TimeFormat::Utc => utc_text(t.epoch_millis as int, with_millis) + seq![' '],
        TimeFormat::LocalTime => local_time_text(t, with_millis) + seq![' '],
        TimeFormat::SinceStart => since_start_text(elapsed_millis(t, start), with_millis)
            + seq![' '],
    }
}

/// Milliseconds elapsed from `start` to `t`, executable counterpart of
/// [`elapsed_millis`].
pub fn elapsed_millis_of(t: Timestamp, start: Timestamp) -> (d: u64)
    ensures
        d as int == elapsed_millis(t, start),
{
    match t.epoch_millis.checked_sub(start.epoch_millis) {
        Some(d) => if d < 0 {
            0
        } else {
            d as u64
        },
        None => if t.epoch_millis >= start.epoch_millis {
            i64::MAX as u64
        } else {
            0
        },
    }
}

/// The elapsed-time column text, executable counterpart of
/// [`since_start_text`].
fn since_start_str(elapsed: u64, with_millis: bool) -> (r: String)
    requires
        elapsed <= i64::MAX,
    ensures
        r@ == since_start_text(elapsed as int, with_millis),
{
    proof {
        reveal_strlit("h ");
        reveal_strlit("m ");
        reveal_strlit("s ");
        reveal_strlit("s");
        reveal_strlit("ms");
    }
    let h = (elapsed / 3_600_000) % 24;
    let m = (elapsed / 60_000) % 60;
    let s = (elapsed / 1_000) % 60;
    let ms = elapsed % 1_000;
    let mut out = String::new();
    if with_millis {
        if h == 0 && m == 0 && s == 0 {
            let d = u64_to_dec(ms);
            out.append(d.as_str());
            out.append("ms");
        } else if h == 0 && m == 0 {
            let d = u64_to_dec(s);
            out.append(d.as_str());
            out.append("s ");
            let d2 = u64_to_dec(ms);
            out.append(d2.as_str());
            out.append("ms");
        } else if h == 0 {
            let d = u64_to_dec(m);
            out.append(d.as_str());
            out.append("m ");
            let d2 = u64_to_dec(s);
            out.append(d2.as_str());
            out.append("s ");
            let d3 = u64_to_dec(ms);
            out.append(d3.as_str());
            out.append("ms");
        } else {
            let d = u64_to_dec(h);
            out.append(d.as_str());
            out.append("h ");
            let d2 = u64_to_dec(m);
            out.append(d2.as_str());
            out.append("m ");
            let d3 = u64_to_dec(s);
            out.append(d3.as_str());
            out.append("s ");
            let d4 = u64_to_dec(ms);
            out.append(d4.as_str());
            out.append("ms");
        }
    } else {
        if h == 0 && m == 0 {
            let d = u64_to_dec(s);
            out.append(d.as_str());
            out.append("s");
        } else if h == 0 {
            let d = u64_to_dec(m);
            out.append(d.as_str());
            out.append("m ");
            let d2 = u64_to_dec(s);
            out.append(d2.as_str());
            out.append("s");
        } else {
            let d = u64_to_dec(h);
            out.append(d.as_str());
            out.append("h ");
            let d2 = u64_to_dec(m);
            out.append(d2.as_str());
            out.append("m ");
            let d3 = u64_to_dec(s);
            out.append(d3.as_str());
            out.append("s");
        }
    }
    proof {
        assert(out@ =~= since_start_text(elapsed as int, with_millis));
    }
    out
}

/// The local-time column text, executable counterpart of
/// [`local_time_text`].
fn local_time_str(t: Timestamp, with_millis: bool) -> (r: String)
    ensures
        r@ == local_time_text(t, with_millis),
{
    proof {
        reveal_strlit(":");
        reveal_strlit(".");
    }
    let mut out = two_digits_str(t.hour as u64);
    out.append(":");
    let mm = two_digits_str(t.minute as u64);
    out.append(mm.as_str());
    out.append(":");
    let ss = two_digits_str(t.second as u64);
    out.append(ss.as_str());
    if with_millis {
        out.append(".");
        let frac = three_digits_str(t.millisecond as u64);
        out.append(frac.as_str());
    }
    proof {
        assert(out@ =~= local_time_text(t, with_millis));
    }
    out
}

/// Formats the timestamp column of one record under `style`, relative to
/// the store's `start_time`.
pub fn format_time(time: Timestamp, style: &LoggerStyle, start_time: Timestamp) -> (r: String)
    ensures
        r@ == time_text(time, *style, start_time),
{
    proof {
        reveal_strlit(" ");
    }
    let with_millis = matches!(style.time_precision, TimePrecision::Milliseconds);
    match style.time_format {
        TimeFormat::Hide => String::new(),
        TimeFormat::Utc => {
            let mut out = match utc_rfc3339(time.epoch_millis, with_millis) {
                Some(s) => s,
                None => String::new(),
            };
            out.append(" ");
            proof {
                assert(out@ =~= time_text(time, *style, start_time));
            }
            out
        },
        TimeFormat::LocalTime => {
            let mut out = local_time_str(time, with_millis);
            out.append(" ");
            proof {
                assert(out@ =~= time_text(time, *style, start_time));
            }
            out
        },
        TimeFormat::SinceStart => {
            let elapsed = elapsed_millis_of(time, start_time);
            let mut out = since_start_str(elapsed, with_millis);
            out.append(" ");
            proof {
                assert(out@ =~= time_text(time, *style, start_time));
            }
            out
        },
    }
}

} // verus!
