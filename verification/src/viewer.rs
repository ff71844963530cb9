//! The per-viewer state: filter criteria, the position-aligned search and
//! layout caches, and the once-per-frame refresh that keeps them in sync
//! with the store.
//!
//! The caches are aligned 1:1 with the store's records at the time of the
//! last refresh. A refresh trims the store to the retention cap, drops the
//! same number of entries from the front of both caches, formats and
//! match-tests only the records beyond the cache length, and rebuilds the
//! search cache wholesale when the search criteria changed since the last
//! frame (or when the store's epoch shows that records left the store
//! behind this viewer's back).

use vstd::prelude::*;
use vstd::string::StrSliceExecFns;
use crate::level::{Level, level_index};
use crate::pattern::{CompiledPattern, compile_pattern, pattern_matches, regex_compiles,
    regex_match};
use crate::record::RecordView;
use crate::store::{LogStore, StoreView, cat_lookup, evict_count, next_epoch};
use crate::style::{LoggerStyle, LogColor, TimeFormat, TimePrecision, standard_style};
use crate::clock::{Timestamp, time_text, format_time};
use crate::format::{FormattedLine, LineView, line_of, format_record};
use crate::textutil::{is_substring, lower_of, to_lowercase, str_contains};

verus! {

/// Whether `text` matches the search criteria `(term, case_sensitive,
/// use_regex)`, as defined in one place for the whole library: a regex
/// match when regex search is on (false for a pattern that does not
/// compile), else substring containment, case folded unless the search is
/// case sensitive.
pub open spec fn matches_spec(
    term: Seq<char>,
    case_sensitive: bool,
    use_regex: bool,
    text: Seq<char>,
) -> bool {
    if use_regex {
        regex_compiles(term, !case_sensitive) && regex_match(term, !case_sensitive, text)
    } else if case_sensitive {
        is_substring(term, text)
    } else {
        is_substring(lower_of(term), lower_of(text))
    }
}

/// The mathematical image of one viewer.
#[verifier::ext_equal]
pub ghost struct UiView {
    /// Which levels are shown, indexed by [`level_index`]; always 5 entries.
    pub loglevels: Seq<bool>,
    pub search_term: Seq<char>,
    pub case_sensitive: bool,
    pub use_regex: bool,
    /// The retention cap this viewer enforces on the store at each refresh.
    pub max_log_length: int,
    pub style: LoggerStyle,
    pub search_cache: Seq<bool>,
    pub layout_cache: Seq<LineView>,
    /// The records the cache entries were computed from, positionally.
    pub synced_records: Seq<RecordView>,
    /// The store epoch the caches were synced against.
    pub synced_epoch: u64,
    /// Whether the search criteria changed since the last refresh.
    pub search_dirty: bool,
}

/// [`matches_spec`] under this viewer's current criteria.
pub open spec fn ui_matches(v: UiView, text: Seq<char>) -> bool {
    matches_spec(v.search_term, v.case_sensitive, v.use_regex, text)
}

/// The value of one search-cache entry for a record whose formatted text is
/// `text`: an empty search term matches everything without a text scan.
pub open spec fn search_entry(v: UiView, text: Seq<char>) -> bool {
    if v.search_term.len() == 0 {
        true
    } else {
        ui_matches(v, text)
    }
}

/// Both caches and the synced-record sequence are position-aligned, and the
/// level array has one flag per level.
pub open spec fn caches_aligned(v: UiView) -> bool {
    v.search_cache.len() == v.layout_cache.len() && v.synced_records.len()
        == v.layout_cache.len() && v.loglevels.len() == 5
}

/// Unless the criteria changed since the last refresh, every search-cache
/// entry is the match value of the corresponding cached line.
pub open spec fn search_consistent(v: UiView) -> bool {
    !v.search_dirty ==> forall|j: int|
        0 <= j < v.search_cache.len() ==> v.search_cache[j] == search_entry(
            v,
            #[trigger] v.layout_cache[j].text,
        )
}

/// The viewer's structural invariant, at the view level.
pub open spec fn inv_view(v: UiView) -> bool {
    caches_aligned(v) && search_consistent(v)
}

/// The viewer's caches either were synced against this very store state
/// (same epoch), in which case they are a prefix image of its records, or
/// the epoch differs and the next refresh discards them.
pub open spec fn ui_tracks(v: UiView, s: StoreView) -> bool {
    v.synced_epoch == s.epoch ==> v.synced_records.len() <= s.records.len() && forall|i: int|
        0 <= i < v.synced_records.len() ==> #[trigger] v.synced_records[i] == s.records[i]
}

/// The viewer is fully synced against this store state: same epoch, caches
/// cover every record, criteria unchanged since the sync.
pub open spec fn ui_synced(v: UiView, s: StoreView) -> bool {
    v.synced_epoch == s.epoch && v.synced_records == s.records && !v.search_dirty
}

/// The viewer after its search criteria change: fields set, the compiled
/// pattern renewed, and the search cache marked for rebuild at the next
/// refresh.
pub open spec fn set_search_spec(v: UiView, term: Seq<char>, case_sensitive: bool, use_regex: bool) -> UiView {
    UiView { search_term: term, case_sensitive, use_regex, search_dirty: true, ..v }
}

/// The store after the trim step of a refresh by a viewer with cap `cap`:
/// the oldest records beyond the cap leave, and the epoch moves exactly
/// when any did.
pub open spec fn store_after_refresh(s: StoreView, cap: int) -> StoreView {
    let k = evict_count(s.records.len() as int, cap);
    StoreView {
        records: s.records.skip(k),
        epoch: if k > 0 {
            next_epoch(s.epoch)
        } else {
            s.epoch
        },
        ..s
    }
}

/// The width of the timestamp column this frame: the rendered width of the
/// newest record's timestamp, or zero with no records.
pub open spec fn frame_time_padding(
    records: Seq<RecordView>,
    style: LoggerStyle,
    start_time: Timestamp,
) -> int {
    if records.len() == 0 {
        0
    } else {
        time_text(records.last().time, style, start_time).len() as int
    }
}

/// How many cache entries survive a refresh: none when the epoch moved
/// behind the viewer's back or when layout caching is off (the live path
/// reformats everything); otherwise all but the trimmed front.
pub open spec fn kept_count(v: UiView, s: StoreView) -> int {
    if v.synced_epoch != s.epoch || !v.style.enable_cache_layouts {
        0
    } else {
        let k = evict_count(s.records.len() as int, v.max_log_length);
        if k >= v.layout_cache.len() {
            0
        } else {
            v.layout_cache.len() - k
        }
    }
}

/// The viewer after one refresh against pre-refresh store state `s`: the
/// surviving cache entries keep their bytes; every record beyond them is
/// formatted with this frame's style and column widths and match-tested;
/// a criteria change rebuilds the whole search cache from the cached lines.
pub open spec fn synced_ui(v: UiView, s: StoreView) -> UiView {
    let s1 = store_after_refresh(s, v.max_log_length);
    let keep = kept_count(v, s);
    let kept_layout = v.layout_cache.skip(v.layout_cache.len() - keep);
    let kept_search = v.search_cache.skip(v.search_cache.len() - keep);
    let pad = frame_time_padding(s1.records, v.style, s1.start_time);
    let fresh = Seq::new(
        (s1.records.len() - keep) as nat,
        |j: int| line_of(s1.records[keep + j], v.style, s1.max_category_length, pad, s1.start_time),
    );
    let layout2 = kept_layout + fresh;
    let search2 = if v.search_dirty {
        Seq::new(layout2.len(), |j: int| search_entry(v, layout2[j].text))
    } else {
        kept_search + Seq::new(fresh.len(), |j: int| search_entry(v, fresh[j].text))
    };
    UiView {
        search_cache: search2,
        layout_cache: layout2,
        synced_records: s1.records,
        synced_epoch: s1.epoch,
        search_dirty: false,
        ..v
    }
}

/// The pointwise shape of [`synced_ui`]: the caches cover exactly the
/// trimmed records; the first [`kept_count`] entries are the surviving old
/// ones; every later line is formatted with this frame's widths; and every
/// search entry is the match value of its line (old entries only when the
/// criteria did not change).
pub proof fn lemma_synced_ui_shape(v: UiView, s: StoreView)
    requires
        inv_view(v),
        ui_tracks(v, s),
    ensures
        0 <= kept_count(v, s) <= v.layout_cache.len(),
        kept_count(v, s) <= store_after_refresh(s, v.max_log_length).records.len(),
        synced_ui(v, s).layout_cache.len() == store_after_refresh(s, v.max_log_length).records.len(),
        synced_ui(v, s).search_cache.len() == synced_ui(v, s).layout_cache.len(),
        synced_ui(v, s).synced_records == store_after_refresh(s, v.max_log_length).records,
        synced_ui(v, s).synced_epoch == store_after_refresh(s, v.max_log_length).epoch,
        !synced_ui(v, s).search_dirty,
        forall|i: int|
            0 <= i < kept_count(v, s) ==> #[trigger] synced_ui(v, s).layout_cache[i]
                == v.layout_cache[v.layout_cache.len() - kept_count(v, s) + i],
        forall|i: int|
            kept_count(v, s) <= i < synced_ui(v, s).layout_cache.len()
                ==> #[trigger] synced_ui(v, s).layout_cache[i] == line_of(
                store_after_refresh(s, v.max_log_length).records[i],
                v.style,
                s.max_category_length,
                frame_time_padding(
                    store_after_refresh(s, v.max_log_length).records,
                    v.style,
                    s.start_time,
                ),
                s.start_time,
            ),
        forall|i: int|
            0 <= i < kept_count(v, s) && !v.search_dirty ==> #[trigger] synced_ui(v, s).search_cache[i]
                == v.search_cache[v.search_cache.len() - kept_count(v, s) + i],
        forall|i: int|
            kept_count(v, s) <= i < synced_ui(v, s).search_cache.len() && !v.search_dirty
                ==> #[trigger] synced_ui(v, s).search_cache[i] == search_entry(
                v,
                synced_ui(v, s).layout_cache[i].text,
            ),
        v.search_dirty ==> forall|i: int|
            0 <= i < synced_ui(v, s).search_cache.len() ==> #[trigger] synced_ui(v, s).search_cache[i]
                == search_entry(v, synced_ui(v, s).layout_cache[i].text),
        forall|i: int|
            0 <= i < synced_ui(v, s).search_cache.len() ==> #[trigger] synced_ui(v, s).search_cache[i]
                == search_entry(v, synced_ui(v, s).layout_cache[i].text),
{
    let s1 = store_after_refresh(s, v.max_log_length);
    let keep = kept_count(v, s);
    let kept_layout = v.layout_cache.skip(v.layout_cache.len() - keep);
    let kept_search = v.search_cache.skip(v.search_cache.len() - keep);
    let pad = frame_time_padding(s1.records, v.style, s1.start_time);
    let fresh = Seq::new(
        (s1.records.len() - keep) as nat,
        |j: int| line_of(s1.records[keep + j], v.style, s1.max_category_length, pad, s1.start_time),
    );
    let t = synced_ui(v, s);
    let k = evict_count(s.records.len() as int, v.max_log_length);
    if v.synced_epoch == s.epoch && v.style.enable_cache_layouts {
        assert(v.synced_records.len() == v.layout_cache.len());
        assert(v.synced_records.len() <= s.records.len());
    }
    assert(keep <= s1.records.len());
    assert(kept_layout.len() == keep);
    assert(kept_search.len() == keep);
    assert(t.layout_cache == kept_layout + fresh);
    assert(t.layout_cache.len() == s1.records.len());
    assert(s1.max_category_length == s.max_category_length);
    assert(s1.start_time == s.start_time);
    if v.search_dirty {
        assert(t.search_cache.len() == t.layout_cache.len());
    } else {
        assert(t.search_cache == kept_search + Seq::new(
            fresh.len(),
            |j: int| search_entry(v, fresh[j].text),
        ));
        assert forall|i: int| 0 <= i < keep implies #[trigger] t.search_cache[i]
            == v.search_cache[v.search_cache.len() - keep + i] by {
            assert(t.search_cache[i] == kept_search[i]);
        }
        assert forall|i: int| 0 <= i < t.search_cache.len() implies #[trigger] t.search_cache[i]
            == search_entry(v, t.layout_cache[i].text) by {
            if i < keep {
                assert(t.search_cache[i] == v.search_cache[v.search_cache.len() - keep + i]);
                assert(t.layout_cache[i] == v.layout_cache[v.layout_cache.len() - keep + i]);
                assert(v.search_cache[v.search_cache.len() - keep + i] == search_entry(
                    v,
                    v.layout_cache[v.layout_cache.len() - keep + i].text,
                ));
            } else {
                assert(t.search_cache[i] == search_entry(v, fresh[i - keep].text));
                assert(t.layout_cache[i] == fresh[i - keep]);
            }
        }
    }
}

/// Whether record `j` of the store is shown under this viewer's filters:
/// its level is enabled, its category is not explicitly disabled, and (with
/// a non-empty search term) its cached line matched.
pub open spec fn is_visible(v: UiView, s: StoreView, j: int) -> bool {
    let rec = s.records[j];
    v.loglevels[level_index(rec.level)] && cat_lookup(s.categories, rec.target) != Some(false) && (
    v.search_term.len() == 0 || v.search_cache[j])
}

/// The visible indices among the first `n` records, in order.
pub open spec fn visible_upto(v: UiView, s: StoreView, n: int) -> Seq<usize>
    decreases n,
{
    if n <= 0 {
        Seq::empty()
    } else {
        let prefix = visible_upto(v, s, n - 1);
        if is_visible(v, s, n - 1) {
            prefix.push((n - 1) as usize)
        } else {
            prefix
        }
    }
}

/// The ordered list of visible record indices.
pub open spec fn visible_of(v: UiView, s: StoreView) -> Seq<usize> {
    visible_upto(v, s, s.records.len() as int)
}

/// The view over the log: filter criteria plus the two position-aligned
/// caches. You can use [`logger_ui`] to get a default instance.
pub struct LoggerUi {
    loglevels: [bool; 5],
    search_term: String,
    compiled: Option<CompiledPattern>,
    search_case_sensitive: bool,
    search_use_regex: bool,
    max_log_length: usize,
    style: LoggerStyle,
    search_cache: Vec<bool>,
    layout_cache: Vec<FormattedLine>,
    synced_records: Ghost<Seq<RecordView>>,
    synced_epoch: u64,
    search_dirty: bool,
}

impl View for LoggerUi {
    type V = UiView;

    closed spec fn view(&self) -> UiView {
        UiView {
            loglevels: self.loglevels@,
            search_term: self.search_term@,
            case_sensitive: self.search_case_sensitive,
            use_regex: self.search_use_regex,
            max_log_length: self.max_log_length as int,
            style: self.style,
            search_cache: self.search_cache@,
            layout_cache: self.layout_cache@.map_values(|l: FormattedLine| l@),
            synced_records: self.synced_records@,
            synced_epoch: self.synced_epoch,
            search_dirty: self.search_dirty,
        }
    }
}

/// The default viewer configuration: errors, warnings and infos shown,
/// empty plain search, a cap of 1000 records, the standard style.
pub open spec fn default_ui() -> UiView {
    UiView {
        loglevels: seq![true, true, true, false, false],
        search_term: Seq::empty(),
        case_sensitive: false,
        use_regex: false,
        max_log_length: 1000,
        style: standard_style(),
        search_cache: Seq::empty(),
        layout_cache: Seq::empty(),
        synced_records: Seq::empty(),
        synced_epoch: 0,
        search_dirty: false,
    }
}

impl LoggerUi {
    /// The compiled pattern mirrors the current criteria: present exactly
    /// when regex search is on and the term compiles, and compiled from
    /// exactly the current term and case flag.
    pub closed spec fn filter_ok(&self) -> bool {
        match self.compiled {
            Some(p) => p.pattern_view() == self.search_term@ && p.case_flag()
                == !self.search_case_sensitive && regex_compiles(
                self.search_term@,
                !self.search_case_sensitive,
            ),
            None => self.search_use_regex ==> !regex_compiles(
                self.search_term@,
                !self.search_case_sensitive,
            ),
        }
    }

    /// The viewer's full well-formedness: internal cache alignment and
    /// consistency plus the compiled-pattern tie.
    pub closed spec fn wf(&self) -> bool {
        self.filter_ok() && inv_view(self@)
    }

    /// Well-formedness gives the view-level invariant.
    pub proof fn lemma_wf_inv(&self)
        requires
            self.wf(),
        ensures
            inv_view(self@),
            self.filter_ok(),
    {
    }
}

impl LoggerUi {
    /// Whether `text` matches the current search criteria, the one
    /// predicate the search cache is built from (see [`matches_spec`]).
    pub fn match_string(&self, text: &str) -> (b: bool)
        requires
            self.wf(),
        ensures
            b == ui_matches(self@, text@),
    {
        if self.search_use_regex {
            match &self.compiled {
                Some(p) => pattern_matches(p, text),
                None => false,
            }
        } else if self.search_case_sensitive {
            str_contains(text, self.search_term.as_str())
        } else {
            let folded_text = to_lowercase(text);
            let folded_term = to_lowercase(self.search_term.as_str());
            str_contains(folded_text.as_str(), folded_term.as_str())
        }
    }

    /// Replaces the search criteria. When regex search is on the term is
    /// compiled at once (case-insensitively unless `case_sensitive`); a
    /// term that does not compile matches nothing. The search cache is
    /// rebuilt at the next refresh.
    pub fn set_search(&mut self, term: String, case_sensitive: bool, use_regex: bool)
        requires
            old(self).wf(),
        ensures
            final(self).wf(),
            final(self)@ == set_search_spec(old(self)@, term@, case_sensitive, use_regex),
    {
        self.search_term = term;
        self.search_case_sensitive = case_sensitive;
        self.search_use_regex = use_regex;
        self.compiled = if use_regex {
            compile_pattern(self.search_term.as_str(), !case_sensitive)
        } else {
            None
        };
        self.search_dirty = true;
        proof {
            assert(self@ =~= set_search_spec(old(self)@, self@.search_term, case_sensitive, use_regex));
        }
    }

    /// The ordered indices of the records shown under the current filters.
    /// Call after [`LoggerUi::refresh`] in the same frame.
    pub fn visible_indices(&self, store: &LogStore) -> (r: Vec<usize>)
        requires
            self.wf(),
            store.inv(),
            ui_synced(self@, store@),
        ensures
            r@ == visible_of(self@, store@),
    {
        let n = store.len();
        proof {
            assert(self@.search_cache.len() == n);
        }
        let mut out: Vec<usize> = Vec::new();
        let mut j: usize = 0;
        while j < n
            invariant
                self.wf(),
                store.inv(),
                ui_synced(self@, store@),
                n == store@.records.len(),
                self@.search_cache.len() == n,
                j <= n,
                out@ == visible_upto(self@, store@, j as int),
            decreases n - j,
        {
            let rec = store.record_at(j);
            let level_on = self.loglevels[rec.level.index()];
            let category_off = match store.category_enabled(rec.target.as_str()) {
                Some(false) => true,
                _ => false,
            };
            let searched = self.search_term.as_str().is_empty() || self.search_cache[j];
            if level_on && !category_off && searched {
                out.push(j);
            }
            j = j + 1;
            proof {
                assert(out@ =~= visible_upto(self@, store@, j as int));
            }
        }
        out
    }

    /// The cached formatted line of record `index`.
    pub fn formatted(&self, index: usize) -> (line: &FormattedLine)
        requires
            index < self@.layout_cache.len(),
        ensures
            line@ == self@.layout_cache[index as int],
    {
        &self.layout_cache[index]
    }

    /// How many records the layout cache currently covers.
    pub fn layout_cache_len(&self) -> (n: usize)
        ensures
            n == self@.layout_cache.len(),
    {
        self.layout_cache.len()
    }

    /// How many records the search cache currently covers.
    pub fn search_cache_len(&self) -> (n: usize)
        ensures
            n == self@.search_cache.len(),
    {
        self.search_cache.len()
    }

    /// The cached match flag of record `index`.
    pub fn search_match_at(&self, index: usize) -> (b: bool)
        requires
            index < self@.search_cache.len(),
        ensures
            b == self@.search_cache[index as int],
    {
        self.search_cache[index]
    }

    /// The current search term.
    pub fn search_term(&self) -> (s: &str)
        ensures
            s@ == self@.search_term,
    {
        self.search_term.as_str()
    }

    /// Whether the search is case sensitive.
    pub fn case_sensitive(&self) -> (b: bool)
        ensures
            b == self@.case_sensitive,
    {
        self.search_case_sensitive
    }

    /// Whether the search term is a regular expression.
    pub fn use_regex(&self) -> (b: bool)
        ensures
            b == self@.use_regex,
    {
        self.search_use_regex
    }

    /// The current display style.
    pub fn style(&self) -> (s: &LoggerStyle)
        ensures
            *s == self@.style,
    {
        &self.style
    }

    /// The retention cap this viewer enforces at each refresh.
    pub fn max_retained(&self) -> (n: usize)
        ensures
            n as int == self@.max_log_length,
    {
        self.max_log_length
    }

    /// Whether one level's records are shown.
    pub fn level_enabled(&self, level: Level) -> (b: bool)
        requires
            self.wf(),
        ensures
            b == self@.loglevels[level_index(level)],
    {
        proof {
            self.lemma_wf_inv();
        }
        self.loglevels[level.index()]
    }

    /// Shows or hides one level's records.
    pub fn set_level_enabled(&mut self, level: Level, enable: bool)
        requires
            old(self).wf(),
        ensures
            final(self).wf(),
            final(self)@ == (UiView {
                loglevels: old(self)@.loglevels.update(level_index(level), enable),
                ..old(self)@
            }),
    {
        proof {
            self.lemma_wf_inv();
        }
        self.loglevels[level.index()] = enable;
        proof {
            assert(self@ =~= (UiView {
                loglevels: old(self)@.loglevels.update(level_index(level), enable),
                ..old(self)@
            }));
        }
    }

    /// Sets the retention cap enforced at the next refresh.
    pub fn set_max_retained(&mut self, max_length: usize)
        requires
            old(self).wf(),
        ensures
            final(self).wf(),
            final(self)@ == (UiView { max_log_length: max_length as int, ..old(self)@ }),
    {
        self.max_log_length = max_length;
        proof {
            assert(self@ =~= (UiView { max_log_length: max_length as int, ..old(self)@ }));
        }
    }

    /// Sets how timestamps are rendered for lines formatted from now on.
    #[verifier::rlimit(50)]
    pub fn set_time_format(&mut self, time_format: TimeFormat)
        requires
            old(self).wf(),
        ensures
            final(self).wf(),
            final(self)@ == (UiView {
                style: LoggerStyle { time_format, ..old(self)@.style },
                ..old(self)@
            }),
    {
        self.style.time_format = time_format;
        proof {
            assert(self@ =~= (UiView {
                style: LoggerStyle { time_format, ..old(self)@.style },
                ..old(self)@
            }));
        }
    }

    /// Sets the timestamp precision for lines formatted from now on.
    #[verifier::rlimit(50)]
    pub fn set_time_precision(&mut self, time_precision: TimePrecision)
        requires
            old(self).wf(),
        ensures
            final(self).wf(),
            final(self)@ == (UiView {
                style: LoggerStyle { time_precision, ..old(self)@.style },
                ..old(self)@
            }),
    {
        self.style.time_precision = time_precision;
        proof {
            assert(self@ =~= (UiView {
                style: LoggerStyle { time_precision, ..old(self)@.style },
                ..old(self)@
            }));
        }
    }
}

impl LoggerUi {
    /// Enable or disable the regex search control.
    /// True by default.
    #[verifier::rlimit(50)]
    pub fn enable_regex(self, enable: bool) -> (ui: Self)
        requires
            self.wf(),
        ensures
            ui.wf(),
            ui@ == (UiView {
                style: LoggerStyle { enable_regex: enable, ..self@.style },
                ..self@
            }),
    {
        let ui = LoggerUi {
            style: LoggerStyle { enable_regex: enable, ..self.style },
            ..self
        };
        proof {
            assert(ui@ =~= (UiView {
                style: LoggerStyle { enable_regex: enable, ..self@.style },
                ..self@
            }));
        }
        ui
    }

    /// Enable or disable the per-line context menu.
    /// True by default.
    #[verifier::rlimit(50)]
    pub fn enable_ctx_menu(self, enable: bool) -> (ui: Self)
        requires
            self.wf(),
        ensures
            ui.wf(),
            ui@ == (UiView {
                style: LoggerStyle { enable_ctx_menu: enable, ..self@.style },
                ..self@
            }),
    {
        let ui = LoggerUi {
            style: LoggerStyle { enable_ctx_menu: enable, ..self.style },
            ..self
        };
        proof {
            assert(ui@ =~= (UiView {
                style: LoggerStyle { enable_ctx_menu: enable, ..self@.style },
                ..self@
            }));
        }
        ui
    }

    /// Enable or disable showing the target (category) in the context menu.
    /// True by default.
    #[verifier::rlimit(50)]
    pub fn show_target(self, enable: bool) -> (ui: Self)
        requires
            self.wf(),
        ensures
            ui.wf(),
            ui@ == (UiView {
                style: LoggerStyle { show_target: enable, ..self@.style },
                ..self@
            }),
    {
        let ui = LoggerUi {
            style: LoggerStyle { show_target: enable, ..self.style },
            ..self
        };
        proof {
            assert(ui@ =~= (UiView {
                style: LoggerStyle { show_target: enable, ..self@.style },
                ..self@
            }));
        }
        ui
    }

    /// Enable or disable showing the target (category) in the records.
    /// True by default.
    #[verifier::rlimit(50)]
    pub fn include_target(self, enable: bool) -> (ui: Self)
        requires
            self.wf(),
        ensures
            ui.wf(),
            ui@ == (UiView {
                style: LoggerStyle { include_target: enable, ..self@.style },
                ..self@
            }),
    {
        let ui = LoggerUi {
            style: LoggerStyle { include_target: enable, ..self.style },
            ..self
        };
        proof {
            assert(ui@ =~= (UiView {
                style: LoggerStyle { include_target: enable, ..self@.style },
                ..self@
            }));
        }
        ui
    }

    /// Enable or disable showing the level in the records.
    /// True by default.
    #[verifier::rlimit(50)]
    pub fn include_level(self, enable: bool) -> (ui: Self)
        requires
            self.wf(),
        ensures
            ui.wf(),
            ui@ == (UiView {
                style: LoggerStyle { include_level: enable, ..self@.style },
                ..self@
            }),
    {
        let ui = LoggerUi {
            style: LoggerStyle { include_level: enable, ..self.style },
            ..self
        };
        proof {
            assert(ui@ =~= (UiView {
                style: LoggerStyle { include_level: enable, ..self@.style },
                ..self@
            }));
        }
        ui
    }

    /// Enable or disable the copy button.
    /// True by default.
    #[verifier::rlimit(50)]
    pub fn enable_copy_button(self, enable: bool) -> (ui: Self)
        requires
            self.wf(),
        ensures
            ui.wf(),
            ui@ == (UiView {
                style: LoggerStyle { enable_copy_button: enable, ..self@.style },
                ..self@
            }),
    {
        let ui = LoggerUi {
            style: LoggerStyle { enable_copy_button: enable, ..self.style },
            ..self
        };
        proof {
            assert(ui@ =~= (UiView {
                style: LoggerStyle { enable_copy_button: enable, ..self@.style },
                ..self@
            }));
        }
        ui
    }

    /// Enable or disable the count of how many log messages there are.
    /// True by default.
    #[verifier::rlimit(50)]
    pub fn enable_log_count(self, enable: bool) -> (ui: Self)
        requires
            self.wf(),
        ensures
            ui.wf(),
            ui@ == (UiView {
                style: LoggerStyle { enable_log_count: enable, ..self@.style },
                ..self@
            }),
    {
        let ui = LoggerUi {
            style: LoggerStyle { enable_log_count: enable, ..self.style },
            ..self
        };
        proof {
            assert(ui@ =~= (UiView {
                style: LoggerStyle { enable_log_count: enable, ..self@.style },
                ..self@
            }));
        }
        ui
    }

    /// Enable or disable the search controls.
    /// True by default.
    #[verifier::rlimit(50)]
    pub fn enable_search(self, enable: bool) -> (ui: Self)
        requires
            self.wf(),
        ensures
            ui.wf(),
            ui@ == (UiView {
                style: LoggerStyle { enable_search: enable, ..self@.style },
                ..self@
            }),
    {
        let ui = LoggerUi {
            style: LoggerStyle { enable_search: enable, ..self.style },
            ..self
        };
        proof {
            assert(ui@ =~= (UiView {
                style: LoggerStyle { enable_search: enable, ..self@.style },
                ..self@
            }));
        }
        ui
    }

    /// Enable or disable the control for the maximum number of retained records.
    /// True by default.
    #[verifier::rlimit(50)]
    pub fn enable_max_log_output(self, enable: bool) -> (ui: Self)
        requires
            self.wf(),
        ensures
            ui.wf(),
            ui@ == (UiView {
                style: LoggerStyle { enable_max_log_output: enable, ..self@.style },
                ..self@
            }),
    {
        let ui = LoggerUi {
            style: LoggerStyle { enable_max_log_output: enable, ..self.style },
            ..self
        };
        proof {
            assert(ui@ =~= (UiView {
                style: LoggerStyle { enable_max_log_output: enable, ..self@.style },
                ..self@
            }));
        }
        ui
    }

    /// Enable or disable the button to configure the log levels.
    /// True by default.
    #[verifier::rlimit(50)]
    pub fn enable_levels_button(self, enable: bool) -> (ui: Self)
        requires
            self.wf(),
        ensures
            ui.wf(),
            ui@ == (UiView {
                style: LoggerStyle { enable_levels_button: enable, ..self@.style },
                ..self@
            }),
    {
        let ui = LoggerUi {
            style: LoggerStyle { enable_levels_button: enable, ..self.style },
            ..self
        };
        proof {
            assert(ui@ =~= (UiView {
                style: LoggerStyle { enable_levels_button: enable, ..self@.style },
                ..self@
            }));
        }
        ui
    }

    /// Enable or disable the button to configure the log categories.
    /// True by default.
    #[verifier::rlimit(50)]
    pub fn enable_categories_button(self, enable: bool) -> (ui: Self)
        requires
            self.wf(),
        ensures
            ui.wf(),
            ui@ == (UiView {
                style: LoggerStyle { enable_categories_button: enable, ..self@.style },
                ..self@
            }),
    {
        let ui = LoggerUi {
            style: LoggerStyle { enable_categories_button: enable, ..self.style },
            ..self
        };
        proof {
            assert(ui@ =~= (UiView {
                style: LoggerStyle { enable_categories_button: enable, ..self@.style },
                ..self@
            }));
        }
        ui
    }

    /// Enable or disable the button to configure the time format.
    /// True by default.
    #[verifier::rlimit(50)]
    pub fn enable_time_button(self, enable: bool) -> (ui: Self)
        requires
            self.wf(),
        ensures
            ui.wf(),
            ui@ == (UiView {
                style: LoggerStyle { enable_time_button: enable, ..self@.style },
                ..self@
            }),
    {
        let ui = LoggerUi {
            style: LoggerStyle { enable_time_button: enable, ..self.style },
            ..self
        };
        proof {
            assert(ui@ =~= (UiView {
                style: LoggerStyle { enable_time_button: enable, ..self@.style },
                ..self@
            }));
        }
        ui
    }

    /// Enable or disable the layout cache: when disabled, every line is reformatted on every refresh.
    /// True by default.
    #[verifier::rlimit(50)]
    pub fn enable_cache_layouts(self, enable: bool) -> (ui: Self)
        requires
            self.wf(),
        ensures
            ui.wf(),
            ui@ == (UiView {
                style: LoggerStyle { enable_cache_layouts: enable, ..self@.style },
                ..self@
            }),
    {
        let ui = LoggerUi {
            style: LoggerStyle { enable_cache_layouts: enable, ..self.style },
            ..self
        };
        proof {
            assert(ui@ =~= (UiView {
                style: LoggerStyle { enable_cache_layouts: enable, ..self@.style },
                ..self@
            }));
        }
        ui
    }

    /// Set the color for warning messages.
    #[verifier::rlimit(50)]
    pub fn warn_color(self, color: LogColor) -> (ui: Self)
        requires
            self.wf(),
        ensures
            ui.wf(),
            ui@ == (UiView {
                style: LoggerStyle { warn_color: color, ..self@.style },
                ..self@
            }),
    {
        let ui = LoggerUi {
            style: LoggerStyle { warn_color: color, ..self.style },
            ..self
        };
        proof {
            assert(ui@ =~= (UiView {
                style: LoggerStyle { warn_color: color, ..self@.style },
                ..self@
            }));
        }
        ui
    }

    /// Set the color for error messages.
    #[verifier::rlimit(50)]
    pub fn error_color(self, color: LogColor) -> (ui: Self)
        requires
            self.wf(),
        ensures
            ui.wf(),
            ui@ == (UiView {
                style: LoggerStyle { error_color: color, ..self@.style },
                ..self@
            }),
    {
        let ui = LoggerUi {
            style: LoggerStyle { error_color: color, ..self.style },
            ..self
        };
        proof {
            assert(ui@ =~= (UiView {
                style: LoggerStyle { error_color: color, ..self@.style },
                ..self@
            }));
        }
        ui
    }

    /// Set the color for the level and target prefix of messages that are neither errors nor warnings.
    #[verifier::rlimit(50)]
    pub fn highlight_color(self, color: LogColor) -> (ui: Self)
        requires
            self.wf(),
        ensures
            ui.wf(),
            ui@ == (UiView {
                style: LoggerStyle { highlight_color: color, ..self@.style },
                ..self@
            }),
    {
        let ui = LoggerUi {
            style: LoggerStyle { highlight_color: color, ..self.style },
            ..self
        };
        proof {
            assert(ui@ =~= (UiView {
                style: LoggerStyle { highlight_color: color, ..self@.style },
                ..self@
            }));
        }
        ui
    }

    /// Set which log levels should be shown. The `log_levels` array is
    /// indexed from the most severe level to the least severe one.
    #[verifier::rlimit(50)]
    pub fn log_levels(self, log_levels: [bool; 5]) -> (ui: Self)
        requires
            self.wf(),
        ensures
            ui.wf(),
            ui@ == (UiView { loglevels: log_levels@, ..self@ }),
    {
        let ui = LoggerUi { loglevels: log_levels, ..self };
        proof {
            assert(ui@ =~= (UiView { loglevels: log_levels@, ..self@ }));
        }
        ui
    }

    /// Set the maximum number of log messages that should be retained.
    #[verifier::rlimit(50)]
    pub fn max_log_length(self, max_length: usize) -> (ui: Self)
        requires
            self.wf(),
        ensures
            ui.wf(),
            ui@ == (UiView { max_log_length: max_length as int, ..self@ }),
    {
        let ui = LoggerUi { max_log_length: max_length, ..self };
        proof {
            assert(ui@ =~= (UiView { max_log_length: max_length as int, ..self@ }));
        }
        ui
    }

    /// Sets the visibility flag of one category in the store, inserting it
    /// when it was never seen, and hands the viewer back unchanged.
    pub fn enable_category(self, store: &mut LogStore, category: String, enable: bool) -> (ui: Self)
        requires
            old(store).inv(),
        ensures
            ui == self,
            final(store).inv(),
            cat_lookup(final(store)@.categories, category@) == Some(enable),
            forall|n: Seq<char>|
                n != category@ ==> #[trigger] cat_lookup(final(store)@.categories, n) == cat_lookup(
                    old(store)@.categories,
                    n,
                ),
            final(store)@ == (StoreView {
                categories: final(store)@.categories,
                ..old(store)@
            }),
    {
        store.set_category_enabled(category, enable);
        self
    }
}

/// Removes the first `k` elements of `v`, keeping the rest in order.
fn drop_front<T>(v: &mut Vec<T>, k: usize)
    requires
        k <= old(v)@.len(),
    ensures
        final(v)@ == old(v)@.skip(k as int),
{
    let mut i: usize = 0;
    while i < k
        invariant
            i <= k,
            k <= old(v)@.len(),
            v@ == old(v)@.skip(i as int),
        decreases k - i,
    {
        v.remove(0);
        i = i + 1;
        proof {
            assert(v@ =~= old(v)@.skip(i as int));
        }
    }
}

impl LoggerUi {
    /// The once-per-frame synchronization: trims the store to this viewer's
    /// retention cap, drops the same number of entries from the front of
    /// both caches, formats and match-tests exactly the records the caches
    /// do not cover yet, and rebuilds the search cache wholesale when the
    /// criteria changed since the last frame or the store's epoch moved
    /// behind this viewer's back. Afterwards both caches cover every
    /// retained record.
    pub fn refresh(&mut self, store: &mut LogStore)
        requires
            old(self).wf(),
            old(store).inv(),
            ui_tracks(old(self)@, old(store)@),
        ensures
            final(self).wf(),
            final(store).inv(),
            final(store)@ == store_after_refresh(old(store)@, old(self)@.max_log_length),
            final(self)@ == synced_ui(old(self)@, old(store)@),
            ui_synced(final(self)@, final(store)@),
            ui_tracks(final(self)@, final(store)@),
            final(self)@.search_cache.len() == final(store)@.records.len(),
            final(self)@.layout_cache.len() == final(store)@.records.len(),
    {
        let ghost v0 = self@;
        let ghost s0 = store@;
        proof {
            self.lemma_wf_inv();
        }

        let pre_epoch = store.epoch();
        let k = store.trim_to(self.max_log_length);
        let ghost s1 = store@;
        proof {
            assert(s1 =~= store_after_refresh(s0, v0.max_log_length));
        }

        let ghost keep = kept_count(v0, s0);
        let ghost target = synced_ui(v0, s0);
        proof {
            lemma_synced_ui_shape(v0, s0);
        }

        if self.synced_epoch == pre_epoch && self.style.enable_cache_layouts {
            let cache_len = self.layout_cache.len();
            let d = if k < cache_len {
                k
            } else {
                cache_len
            };
            drop_front(&mut self.search_cache, d);
            drop_front(&mut self.layout_cache, d);
            self.synced_records = Ghost(v0.synced_records.skip(d as int));
            proof {
                assert(keep == cache_len - d);
                assert(self@.layout_cache =~= v0.layout_cache.skip(d as int));
                assert(self@.search_cache =~= v0.search_cache.skip(d as int));
            }
        } else {
            self.search_cache.clear();
            self.layout_cache.clear();
            self.synced_records = Ghost(Seq::empty());
            proof {
                assert(keep == 0);
                assert(self@.layout_cache =~= Seq::<LineView>::empty());
            }
        }
        self.synced_epoch = store.epoch();

        proof {
            assert(self@.layout_cache.len() == keep);
            assert(self@.search_cache.len() == keep);
            assert(keep <= s1.records.len());
            assert(self@.synced_records =~= s1.records.take(keep));
            assert(self@.layout_cache =~= target.layout_cache.take(keep));
            if !v0.search_dirty {
                assert(self@.search_cache =~= target.search_cache.take(keep));
                assert forall|j: int|
                    0 <= j < self@.search_cache.len() implies self@.search_cache[j] == search_entry(
                    self@,
                    #[trigger] self@.layout_cache[j].text,
                ) by {
                    assert(v0.search_cache[j + (v0.layout_cache.len() - keep)] == search_entry(
                        v0,
                        v0.layout_cache[j + (v0.layout_cache.len() - keep)].text,
                    ));
                }
            }
            assert(self.wf());
        }

        let mcl = store.max_category_length();
        let start = store.start_time();
        let total = store.len();
        let pad: usize = if total == 0 {
            0
        } else {
            let t = format_time(store.record_at(total - 1).time, &self.style, start);
            t.as_str().unicode_len()
        };
        proof {
            assert(pad as int == frame_time_padding(s1.records, v0.style, s1.start_time));
            assert(target.layout_cache.len() == s1.records.len());
        }

        while self.layout_cache.len() < total
            invariant
                self.wf(),
                store.inv(),
                store@ == s1,
                s1 == store_after_refresh(s0, v0.max_log_length),
                target == synced_ui(v0, s0),
                keep == kept_count(v0, s0),
                inv_view(v0),
                ui_tracks(v0, s0),
                0 <= keep <= self@.layout_cache.len(),
                self@.layout_cache.len() <= total,
                total == s1.records.len(),
                target.layout_cache.len() == total,
                mcl as int == s1.max_category_length,
                start == s1.start_time,
                pad as int == frame_time_padding(s1.records, v0.style, s1.start_time),
                self@.search_term == v0.search_term,
                self@.case_sensitive == v0.case_sensitive,
                self@.use_regex == v0.use_regex,
                self@.style == v0.style,
                self@.max_log_length == v0.max_log_length,
                self@.loglevels == v0.loglevels,
                self@.search_dirty == v0.search_dirty,
                self@.synced_epoch == s1.epoch,
                self@.search_cache.len() == self@.layout_cache.len(),
                self@.synced_records == s1.records.take(self@.layout_cache.len() as int),
                self@.layout_cache == target.layout_cache.take(self@.layout_cache.len() as int),
                !v0.search_dirty ==> self@.search_cache == target.search_cache.take(
                    self@.layout_cache.len() as int,
                ),
            decreases total - self.layout_cache.len(),
        {
            let ghost pre = self@;
            let i = self.layout_cache.len();
            let line = format_record(store.record_at(i), &self.style, mcl, pad, start);
            let entry = if self.search_dirty {
                true
            } else if self.search_term.as_str().is_empty() {
                true
            } else {
                self.match_string(line.text.as_str())
            };
            proof {
                lemma_synced_ui_shape(v0, s0);
                assert(target.layout_cache[i as int] == line_of(
                    s1.records[i as int],
                    v0.style,
                    s1.max_category_length,
                    frame_time_padding(s1.records, v0.style, s1.start_time),
                    s1.start_time,
                ));
                assert(line@ == target.layout_cache[i as int]);
                if !v0.search_dirty {
                    assert(target.search_cache[i as int] == search_entry(
                        v0,
                        target.layout_cache[i as int].text,
                    ));
                    assert(entry == search_entry(pre, line@.text));
                }
            }
            self.search_cache.push(entry);
            self.layout_cache.push(line);
            self.synced_records = Ghost(self.synced_records@.push(store@.records[i as int]));
            proof {
                assert(self@.layout_cache =~= pre.layout_cache.push(line@));
                assert(self@.search_cache =~= pre.search_cache.push(entry));
                assert(self@.layout_cache =~= target.layout_cache.take(
                    self@.layout_cache.len() as int,
                ));
                assert(self@.synced_records =~= s1.records.take(self@.layout_cache.len() as int));
                if !v0.search_dirty {
                    assert(self@.search_cache =~= target.search_cache.take(
                        self@.layout_cache.len() as int,
                    ));
                    assert forall|j: int|
                        0 <= j < self@.search_cache.len() implies self@.search_cache[j]
                        == search_entry(self@, #[trigger] self@.layout_cache[j].text) by {
                        if j < pre.search_cache.len() {
                            assert(pre.search_cache[j] == search_entry(
                                pre,
                                pre.layout_cache[j].text,
                            ));
                        }
                    }
                }
                assert(self.wf());
            }
        }

        proof {
            lemma_synced_ui_shape(v0, s0);
            assert(self@.layout_cache =~= target.layout_cache);
        }
        if self.search_dirty {
            let n = self.layout_cache.len();
            let empty_term = self.search_term.as_str().is_empty();
            let mut fresh_search: Vec<bool> = Vec::new();
            while fresh_search.len() < n
                invariant
                    self.wf(),
                    n == self@.layout_cache.len(),
                    inv_view(v0),
                    ui_tracks(v0, s0),
                    target == synced_ui(v0, s0),
                    self@.layout_cache == target.layout_cache,
                    self@.search_dirty,
                    self@.search_term == v0.search_term,
                    self@.case_sensitive == v0.case_sensitive,
                    self@.use_regex == v0.use_regex,
                    empty_term == (v0.search_term.len() == 0),
                    fresh_search@.len() <= n,
                    forall|j: int|
                        0 <= j < fresh_search@.len() ==> fresh_search@[j] == search_entry(
                            self@,
                            #[trigger] self@.layout_cache[j].text,
                        ),
                decreases n - fresh_search.len(),
            {
                let j = fresh_search.len();
                let entry = if empty_term {
                    true
                } else {
                    self.match_string(self.layout_cache[j].text.as_str())
                };
                fresh_search.push(entry);
            }
            let ghost pre = self@;
            self.search_cache = fresh_search;
            self.search_dirty = false;
            proof {
                assert forall|j: int|
                    0 <= j < self@.search_cache.len() implies self@.search_cache[j] == search_entry(
                    self@,
                    #[trigger] self@.layout_cache[j].text,
                ) by {
                    assert(self@.search_cache[j] == search_entry(pre, pre.layout_cache[j].text));
                }
                assert(self@.search_cache =~= target.search_cache);
            }
        }

        proof {
            assert(self@.layout_cache =~= target.layout_cache);
            assert(self@.synced_records =~= s1.records);
            if !v0.search_dirty {
                assert(self@.search_cache =~= target.search_cache);
            }
            assert(self@ =~= target);
            assert(s1.records.take(s1.records.len() as int) =~= s1.records);
            assert(self.wf());
        }
    }
}

/// Returns a default [`LoggerUi`]. The host draws it each frame: refresh,
/// then read the visible indices and their formatted lines.
pub fn logger_ui() -> (ui: LoggerUi)
    ensures
        ui@ == default_ui(),
        ui.wf(),
{
    LoggerUi::default()
}

impl Default for LoggerUi {
    fn default() -> (ui: Self)
        ensures
            ui@ == default_ui(),
            ui.wf(),
    {
        let ui = LoggerUi {
            loglevels: [true, true, true, false, false],
            search_term: String::new(),
            compiled: None,
            search_case_sensitive: false,
            search_use_regex: false,
            max_log_length: 1000,
            style: LoggerStyle::default(),
            search_cache: Vec::new(),
            layout_cache: Vec::new(),
            synced_records: Ghost(Seq::empty()),
            synced_epoch: 0,
            search_dirty: false,
        };
        proof {
            assert(ui@.loglevels =~= seq![true, true, true, false, false]);
            assert(ui@.layout_cache =~= Seq::<LineView>::empty());
            assert(ui@ =~= default_ui());
        }
        ui
    }
}

} // verus!
