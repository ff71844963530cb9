//! The sink: the entry point the logging facade calls for every emitted
//! event, and the builder that configures it.
//!
//! The sink filters by maximum severity and by a fixed category blacklist
//! before anything is appended, so excluded events never touch the store.

use vstd::prelude::*;
use vstd::string::StringExecFns;
use crate::level::{Level, LevelFilter, level_admitted};
use crate::record::{LogRecord, RecordView};
use crate::store::{LogStore, StoreView, CategoryView, cat_lookup};
use crate::clock::Timestamp;
use crate::textutil::str_eq;

verus! {

/// `target` is one of the blacklisted category names.
pub open spec fn blacklisted(blacklist: Seq<Seq<char>>, target: Seq<char>) -> bool {
    exists|i: int| 0 <= i < blacklist.len() && #[trigger] blacklist[i] == target
}

/// The mathematical image of the sink's configuration.
#[verifier::ext_equal]
pub ghost struct SinkView {
    pub max_level: LevelFilter,
    pub show_all_categories: bool,
    pub blacklist: Seq<Seq<char>>,
}

/// An event of this level and category passes the sink.
pub open spec fn sink_admits(cfg: SinkView, level: Level, target: Seq<char>) -> bool {
    level_admitted(level, cfg.max_level) && !blacklisted(cfg.blacklist, target)
}

/// The store after the sink handles one event: unchanged for an excluded
/// event; otherwise the record is appended and, when the category was never
/// seen before, the category enters the table with the sink's default
/// visibility and widens the category column if needed.
pub open spec fn sink_log_spec(
    cfg: SinkView,
    s: StoreView,
    level: Level,
    target: Seq<char>,
    message: Seq<char>,
    time: Timestamp,
) -> StoreView {
    if !sink_admits(cfg, level, target) {
        s
    } else {
        let appended = StoreView {
            records: s.records.push(RecordView { level, message, target, time }),
            ..s
        };
        if cat_lookup(s.categories, target) is Some {
            appended
        } else {
            StoreView {
                categories: s.categories.push(
                    CategoryView { name: target, enabled: cfg.show_all_categories },
                ),
                max_category_length: if target.len() > s.max_category_length {
                    target.len() as int
                } else {
                    s.max_category_length
                },
                ..appended
            }
        }
    }
}

/// The logger for an interactive log view: the sink handed to the logging
/// facade. Use [`builder`] to configure and build one.
pub struct EguiLogger {
    max_level: LevelFilter,
    show_all_categories: bool,
    blacklist: Vec<String>,
}

impl View for EguiLogger {
    type V = SinkView;

    closed spec fn view(&self) -> SinkView {
        SinkView {
            max_level: self.max_level,
            show_all_categories: self.show_all_categories,
            blacklist: self.blacklist@.map_values(|s: String| s@),
        }
    }
}

impl EguiLogger {
    /// A sink from its configuration.
    pub(crate) fn new(max_level: LevelFilter, show_all_categories: bool, blacklist: Vec<String>) -> (
        l: EguiLogger)
        ensures
            l@ == (SinkView {
                max_level,
                show_all_categories,
                blacklist: blacklist@.map_values(|s: String| s@),
            }),
    {
        EguiLogger { max_level, show_all_categories, blacklist }
    }

    /// The maximum severity this sink collects; the host hands it to the
    /// logging facade at registration.
    pub fn max_level(&self) -> (f: LevelFilter)
        ensures
            f == self@.max_level,
    {
        self.max_level
    }

    /// Whether an event of this level and category would be collected at
    /// all. This runs before any lock is taken, so excluded events cost the
    /// emitting thread almost nothing.
    pub fn enabled(&self, level: Level, target: &str) -> (b: bool)
        ensures
            b == sink_admits(self@, level, target@),
    {
        if !self.max_level.admits(level) {
            return false;
        }
        let n = self.blacklist.len();
        let mut i: usize = 0;
        while i < n
            invariant
                n == self.blacklist.len(),
                i <= n,
                forall|k: int| 0 <= k < i ==> self@.blacklist[k] != target@,
            decreases n - i,
        {
            if str_eq(self.blacklist[i].as_str(), target) {
                proof {
                    assert(self@.blacklist[i as int] == target@);
                    assert(blacklisted(self@.blacklist, target@));
                }
                return false;
            }
            i = i + 1;
        }
        true
    }

    /// Handles one emitted event: appends it to `store` unless the sink
    /// excludes it, and registers its category on first sight with the
    /// sink's default visibility.
    pub fn log(
        &self,
        store: &mut LogStore,
        level: Level,
        target: &str,
        message: String,
        time: Timestamp,
    )
        requires
            old(store).inv(),
        ensures
            final(store).inv(),
            final(store)@ == sink_log_spec(self@, old(store)@, level, target@, message@, time),
    {
        if self.enabled(level, target) {
            let record = LogRecord::new(level, message, String::from_str(target), time);
            store.append(record);
            store.note_category(target, self.show_all_categories);
            proof {
                assert(store@ =~= sink_log_spec(self@, old(store)@, level, target@, message@, time));
            }
        }
    }
}

/// The mathematical image of a builder.
#[verifier::ext_equal]
pub ghost struct BuilderView {
    pub max_level: LevelFilter,
    pub show_all_categories: bool,
    pub blacklist: Seq<Seq<char>>,
}

/// The builder for the logger. Use [`builder`] to get one with default
/// values.
pub struct Builder {
    max_level: LevelFilter,
    show_all_categories: bool,
    blacklist: Vec<String>,
}

impl View for Builder {
    type V = BuilderView;

    closed spec fn view(&self) -> BuilderView {
        BuilderView {
            max_level: self.max_level,
            show_all_categories: self.show_all_categories,
            blacklist: self.blacklist@.map_values(|s: String| s@),
        }
    }
}

/// The builder's default configuration: collect up to `Debug`, show every
/// category on first sight, no blacklist.
pub open spec fn default_builder() -> BuilderView {
    BuilderView {
        max_level: LevelFilter::Debug,
        show_all_categories: true,
        blacklist: Seq::empty(),
    }
}

impl Default for Builder {
    fn default() -> (b: Self)
        ensures
            b@ == default_builder(),
    {
        let b = Builder {
            max_level: LevelFilter::Debug,
            show_all_categories: true,
            blacklist: Vec::new(),
        };
        proof {
            assert(b@ =~= default_builder());
        }
        b
    }
}

impl Builder {
    /// Sets the maximum severity the sink collects.
    ///
    /// Defaults to `Debug`.
    pub fn max_level(self, max_level: LevelFilter) -> (b: Self)
        ensures
            b@ == (BuilderView { max_level, ..self@ }),
    {
        let b = Builder { max_level, ..self };
        proof {
            assert(b@ =~= (BuilderView { max_level, ..self@ }));
        }
        b
    }

    /// Whether to show all categories by default (versus only those that
    /// are explicitly enabled).
    ///
    /// Defaults to true.
    pub fn show_all_categories(self, show_all_categories: bool) -> (b: Self)
        ensures
            b@ == (BuilderView { show_all_categories, ..self@ }),
    {
        let b = Builder { show_all_categories, ..self };
        proof {
            assert(b@ =~= (BuilderView { show_all_categories, ..self@ }));
        }
        b
    }

    /// Sets the fixed list of category names the sink excludes outright,
    /// whatever their level.
    ///
    /// Defaults to none.
    pub fn blacklist(self, blacklist: Vec<String>) -> (b: Self)
        ensures
            b@ == (BuilderView {
                blacklist: blacklist@.map_values(|s: String| s@),
                ..self@
            }),
    {
        let b = Builder { blacklist, ..self };
        proof {
            assert(b@ =~= (BuilderView { blacklist: b@.blacklist, ..self@ }));
        }
        b
    }

    /// Returns the configured logger. Useful if you want to add it to a
    /// multi-logger; the host registers it with the logging facade.
    pub fn build(self) -> (l: EguiLogger)
        ensures
            l@ == (SinkView {
                max_level: self@.max_level,
                show_all_categories: self@.show_all_categories,
                blacklist: self@.blacklist,
            }),
    {
        EguiLogger::new(self.max_level, self.show_all_categories, self.blacklist)
    }
}

/// The log builder with default values, a convenient way to get
/// `Builder::default()`.
pub fn builder() -> (b: Builder)
    ensures
        b@ == default_builder(),
{
    Builder::default()
}

} // verus!
