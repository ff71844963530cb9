//! An in-process, append-only log buffer with an incremental filtering,
//! searching and formatting cache, meant to sit underneath an interactive
//! log view that is redrawn once per frame.
//!
//! The data plane lives here: the record store with its bounded retention
//! policy, the per-viewer filter state, and the position-aligned search and
//! layout caches that are kept in sync with appended records, evicted
//! records, and changed search criteria. A rendering backend consumes the
//! formatted lines; the host's interactive controls mutate the filter state
//! through the methods on [`LoggerUi`]; the host's logging-facade adapter
//! feeds events through [`EguiLogger`].

pub mod level;
pub mod textutil;
pub mod style;
pub mod clock;
pub mod pattern;
pub mod record;
pub mod format;
pub mod store;
pub mod sink;
pub mod viewer;
pub mod laws;

pub use level::Level;
pub use level::LevelFilter;
pub use style::LogColor;
pub use style::LoggerStyle;
pub use style::TimeFormat;
pub use style::TimePrecision;
pub use clock::Timestamp;
pub use clock::format_time;
pub use record::LogRecord;
pub use format::Span;
pub use format::FormattedLine;
pub use format::format_record;
pub use store::Category;
pub use store::LogStore;
pub use store::clear_logs;
pub use sink::EguiLogger;
pub use sink::Builder;
pub use sink::builder;
pub use viewer::LoggerUi;
pub use viewer::logger_ui;
