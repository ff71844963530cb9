//! The library's cross-function guarantees, stated and proved over the
//! specification model: cache alignment after a refresh, eviction
//! alignment, idempotence of the refresh, search-rebuild determinism, and
//! the first-sight category default.

use vstd::prelude::*;
use crate::level::Level;
use crate::store::{StoreView, CategoryView, cat_lookup, cats_unique, evict_count,
    lemma_cat_lookup_push_fresh};
use crate::sink::{SinkView, sink_admits, sink_log_spec};
use crate::viewer::{UiView, synced_ui, store_after_refresh, kept_count, lemma_synced_ui_shape,
    inv_view, ui_tracks, ui_synced, set_search_spec, search_entry, visible_of, visible_upto,
    is_visible, caches_aligned};

verus! {

/// After one refresh, both caches cover exactly `min(n, max_retained)`
/// records, where `n` is how many records the store held: for all sequences
/// of appended records, once the caches are synced their lengths agree with
/// each other and with the retained record count.
pub proof fn lemma_cache_lengths_after_refresh(v: UiView, s: StoreView)
    requires
        inv_view(v),
        ui_tracks(v, s),
        v.max_log_length >= 0,
    ensures
        synced_ui(v, s).search_cache.len() == synced_ui(v, s).layout_cache.len(),
        synced_ui(v, s).layout_cache.len() == if s.records.len() <= v.max_log_length {
            s.records.len() as int
        } else {
            v.max_log_length
        },
{
    lemma_synced_ui_shape(v, s);
}

/// A refresh leaves the viewer well formed and fully synced against the
/// trimmed store.
pub proof fn lemma_refresh_establishes(v: UiView, s: StoreView)
    requires
        inv_view(v),
        ui_tracks(v, s),
    ensures
        inv_view(synced_ui(v, s)),
        ui_tracks(synced_ui(v, s), store_after_refresh(s, v.max_log_length)),
        ui_synced(synced_ui(v, s), store_after_refresh(s, v.max_log_length)),
{
    lemma_synced_ui_shape(v, s);
    let t = synced_ui(v, s);
    let s1 = store_after_refresh(s, v.max_log_length);
    assert(t.search_term == v.search_term && t.case_sensitive == v.case_sensitive && t.use_regex
        == v.use_regex);
    assert forall|j: int|
        0 <= j < t.search_cache.len() implies t.search_cache[j] == search_entry(
        t,
        #[trigger] t.layout_cache[j].text,
    ) by {
        assert(t.search_cache[j] == search_entry(v, t.layout_cache[j].text));
    }
    assert(t.synced_records == s1.records);
    assert(s1.records.take(s1.records.len() as int) =~= s1.records);
}

/// Eviction alignment: with `n` records in the store and a retention cap of
/// `k < n`, one refresh leaves exactly the most recent `k` records, and
/// cache index 0 corresponds to record `n - k` of the pre-refresh store.
pub proof fn lemma_eviction_alignment(v: UiView, s: StoreView)
    requires
        inv_view(v),
        ui_tracks(v, s),
        0 <= v.max_log_length < s.records.len(),
    ensures
        store_after_refresh(s, v.max_log_length).records == s.records.skip(
            s.records.len() - v.max_log_length,
        ),
        store_after_refresh(s, v.max_log_length).records.len() == v.max_log_length,
        synced_ui(v, s).synced_records == store_after_refresh(s, v.max_log_length).records,
        synced_ui(v, s).layout_cache.len() == v.max_log_length,
        v.max_log_length > 0 ==> synced_ui(v, s).synced_records[0] == s.records[s.records.len()
            - v.max_log_length],
{
    lemma_synced_ui_shape(v, s);
}

/// Append-only idempotence: refreshing again with no new records and
/// unchanged criteria leaves the viewer, both caches included, identical.
pub proof fn lemma_refresh_idempotent(v: UiView, s: StoreView)
    requires
        inv_view(v),
        ui_tracks(v, s),
        v.max_log_length >= 0,
    ensures
        synced_ui(synced_ui(v, s), store_after_refresh(s, v.max_log_length)) == synced_ui(v, s),
{
    lemma_synced_ui_shape(v, s);
    lemma_refresh_establishes(v, s);
    let t = synced_ui(v, s);
    let s1 = store_after_refresh(s, v.max_log_length);
    lemma_synced_ui_shape(t, s1);
    let t2 = synced_ui(t, s1);
    assert(evict_count(s1.records.len() as int, t.max_log_length) == 0);
    let s2 = store_after_refresh(s1, t.max_log_length);
    assert(s2.records =~= s1.records);
    assert(s2 =~= s1);
    assert(t2.layout_cache.len() == t.layout_cache.len());
    assert forall|i: int| 0 <= i < t2.layout_cache.len() implies #[trigger] t2.layout_cache[i]
        == t.layout_cache[i] by {
        if i < kept_count(t, s1) {
            assert(t2.layout_cache[i] == t.layout_cache[t.layout_cache.len() - kept_count(t, s1)
                + i]);
        } else {
            assert(t2.layout_cache[i] == crate::format::line_of(
                s2.records[i],
                t.style,
                s1.max_category_length,
                crate::viewer::frame_time_padding(s2.records, t.style, s1.start_time),
                s1.start_time,
            ));
            assert(t.layout_cache[i] == crate::format::line_of(
                s1.records[i],
                v.style,
                s.max_category_length,
                crate::viewer::frame_time_padding(s1.records, v.style, s.start_time),
                s.start_time,
            ));
        }
    }
    assert(t2.layout_cache =~= t.layout_cache);
    assert forall|i: int| 0 <= i < t2.search_cache.len() implies #[trigger] t2.search_cache[i]
        == t.search_cache[i] by {
        assert(t2.search_cache[i] == search_entry(t, t2.layout_cache[i].text));
        assert(t.search_cache[i] == search_entry(v, t.layout_cache[i].text));
    }
    assert(t2.search_cache =~= t.search_cache);
    assert(t2.synced_records =~= t.synced_records);
    assert(t2 =~= t);
}

/// The visible index list depends only on the level flags, the search term,
/// the search cache and the store.
pub proof fn lemma_visible_congruence(v1: UiView, v2: UiView, s: StoreView, n: int)
    requires
        v1.loglevels == v2.loglevels,
        v1.search_term == v2.search_term,
        v1.search_cache == v2.search_cache,
    ensures
        visible_upto(v1, s, n) == visible_upto(v2, s, n),
    decreases n,
{
    if n > 0 {
        lemma_visible_congruence(v1, v2, s, n - 1);
    }
}

/// Rebuild correctness: for a fixed dataset, changing the search term from
/// `a` to `b` and back to `a` (same flags) yields the same search cache and
/// the same visible index set both times.
pub proof fn lemma_search_roundtrip(
    v: UiView,
    s: StoreView,
    a: Seq<char>,
    b: Seq<char>,
    cs: bool,
    ur: bool,
)
    requires
        inv_view(v),
        ui_tracks(v, s),
        v.max_log_length >= 0,
    ensures
        ({
            let s1 = store_after_refresh(s, v.max_log_length);
            let v1 = synced_ui(set_search_spec(v, a, cs, ur), s);
            let v2 = synced_ui(set_search_spec(v1, b, cs, ur), s1);
            let v3 = synced_ui(set_search_spec(v2, a, cs, ur), s1);
            v3.search_cache == v1.search_cache && v3.layout_cache == v1.layout_cache
                && visible_of(v3, s1) == visible_of(v1, s1)
        }),
{
    let s1 = store_after_refresh(s, v.max_log_length);
    let w1 = set_search_spec(v, a, cs, ur);
    let v1 = synced_ui(w1, s);
    let w2 = set_search_spec(v1, b, cs, ur);
    let v2 = synced_ui(w2, s1);
    let w3 = set_search_spec(v2, a, cs, ur);
    let v3 = synced_ui(w3, s1);

    assert(inv_view(w1));
    assert(ui_tracks(w1, s));
    lemma_synced_ui_shape(w1, s);
    assert(store_after_refresh(s, w1.max_log_length) == s1);
    lemma_refresh_establishes(w1, s);
    assert(inv_view(w2)) by {
        assert(caches_aligned(w2));
    }
    assert(ui_tracks(w2, s1));
    lemma_synced_ui_shape(w2, s1);
    lemma_refresh_establishes(w2, s1);
    assert(inv_view(w3)) by {
        assert(caches_aligned(w3));
    }
    assert(ui_tracks(w3, s1));
    lemma_synced_ui_shape(w3, s1);

    let s2 = store_after_refresh(s1, v.max_log_length);
    assert(evict_count(s1.records.len() as int, v.max_log_length) == 0);
    assert(s2.records =~= s1.records);
    assert(s2 =~= s1);

    assert(v2.layout_cache.len() == v1.layout_cache.len());
    assert forall|i: int| 0 <= i < v2.layout_cache.len() implies #[trigger] v2.layout_cache[i]
        == v1.layout_cache[i] by {
        if i < kept_count(w2, s1) {
            assert(v2.layout_cache[i] == v1.layout_cache[v1.layout_cache.len() - kept_count(
                w2,
                s1,
            ) + i]);
        } else {
            assert(v2.layout_cache[i] == crate::format::line_of(
                s2.records[i],
                v.style,
                s1.max_category_length,
                crate::viewer::frame_time_padding(s2.records, v.style, s1.start_time),
                s1.start_time,
            ));
            assert(v1.layout_cache[i] == crate::format::line_of(
                s1.records[i],
                v.style,
                s.max_category_length,
                crate::viewer::frame_time_padding(s1.records, v.style, s.start_time),
                s.start_time,
            ));
        }
    }
    assert(v2.layout_cache =~= v1.layout_cache);

    assert(v3.layout_cache.len() == v2.layout_cache.len());
    assert forall|i: int| 0 <= i < v3.layout_cache.len() implies #[trigger] v3.layout_cache[i]
        == v2.layout_cache[i] by {
        if i < kept_count(w3, s1) {
            assert(v3.layout_cache[i] == v2.layout_cache[v2.layout_cache.len() - kept_count(
                w3,
                s1,
            ) + i]);
        } else {
            assert(v3.layout_cache[i] == crate::format::line_of(
                s2.records[i],
                v.style,
                s1.max_category_length,
                crate::viewer::frame_time_padding(s2.records, v.style, s1.start_time),
                s1.start_time,
            ));
            assert(v2.layout_cache[i] == crate::format::line_of(
                s2.records[i],
                v.style,
                s1.max_category_length,
                crate::viewer::frame_time_padding(s2.records, v.style, s1.start_time),
                s1.start_time,
            ));
        }
    }
    assert(v3.layout_cache =~= v2.layout_cache);

    assert(v3.search_cache.len() == v1.search_cache.len());
    assert forall|i: int| 0 <= i < v3.search_cache.len() implies #[trigger] v3.search_cache[i]
        == v1.search_cache[i] by {
        assert(v3.search_cache[i] == search_entry(w3, v3.layout_cache[i].text));
        assert(v1.search_cache[i] == search_entry(w1, v1.layout_cache[i].text));
        assert(v3.layout_cache[i] == v1.layout_cache[i]);
    }
    assert(v3.search_cache =~= v1.search_cache);

    lemma_visible_congruence(v3, v1, s1, s1.records.len() as int);
}

/// With an empty search term, every level enabled and no category
/// explicitly disabled, every record is visible, in order.
pub proof fn lemma_permissive_all_visible(v: UiView, s: StoreView, n: int)
    requires
        v.search_term.len() == 0,
        forall|i: int| 0 <= i < 5 ==> v.loglevels[i],
        v.loglevels.len() == 5,
        forall|j: int|
            0 <= j < s.records.len() ==> cat_lookup(s.categories, #[trigger] s.records[j].target)
                != Some(false),
        0 <= n <= s.records.len(),
    ensures
        visible_upto(v, s, n).len() == n,
        forall|i: int| 0 <= i < n ==> visible_upto(v, s, n)[i] == i as usize,
    decreases n,
{
    if n > 0 {
        lemma_permissive_all_visible(v, s, n - 1);
        assert(is_visible(v, s, n - 1));
    }
}

/// Eviction keeps the view correct: with more records than the cap, an
/// empty search term, every level enabled and no category disabled, one
/// refresh leaves exactly the most recent `max_log_length` records and all
/// of them visible, in order.
pub proof fn lemma_eviction_visible(v: UiView, s: StoreView)
    requires
        inv_view(v),
        ui_tracks(v, s),
        0 <= v.max_log_length < s.records.len(),
        v.search_term.len() == 0,
        forall|i: int| 0 <= i < 5 ==> v.loglevels[i],
        v.loglevels.len() == 5,
        forall|j: int|
            0 <= j < s.records.len() ==> cat_lookup(s.categories, #[trigger] s.records[j].target)
                != Some(false),
    ensures
        ({
            let s1 = store_after_refresh(s, v.max_log_length);
            let t = synced_ui(v, s);
            s1.records.len() == v.max_log_length && visible_of(t, s1).len() == v.max_log_length
                && forall|i: int| 0 <= i < v.max_log_length ==> visible_of(t, s1)[i] == i as usize
        }),
{
    lemma_eviction_alignment(v, s);
    let s1 = store_after_refresh(s, v.max_log_length);
    let t = synced_ui(v, s);
    assert forall|j: int|
        0 <= j < s1.records.len() implies cat_lookup(s1.categories, #[trigger] s1.records[j].target)
        != Some(false) by {
        assert(s1.records[j] == s.records[j + (s.records.len() - v.max_log_length)]);
    }
    lemma_permissive_all_visible(t, s1, s1.records.len() as int);
}

/// Category default: a record with a previously unseen category becomes
/// registered with the sink's show-all flag at the time of its first
/// occurrence.
pub proof fn lemma_category_default(
    cfg: SinkView,
    s: StoreView,
    level: Level,
    target: Seq<char>,
    message: Seq<char>,
    time: crate::clock::Timestamp,
)
    requires
        cats_unique(s.categories),
        cat_lookup(s.categories, target) is None,
        sink_admits(cfg, level, target),
    ensures
        cat_lookup(
            sink_log_spec(cfg, s, level, target, message, time).categories,
            target,
        ) == Some(cfg.show_all_categories),
        cats_unique(sink_log_spec(cfg, s, level, target, message, time).categories),
{
    lemma_cat_lookup_push_fresh(
        s.categories,
        CategoryView { name: target, enabled: cfg.show_all_categories },
    );
}

/// Category persistence: once a category carries a flag, later events,
/// whatever sink configuration they arrive through, leave that flag alone —
/// visibility is decided by the show-all flag in force at the category's
/// first occurrence, independent of later toggling.
pub proof fn lemma_category_persists(
    cfg: SinkView,
    s: StoreView,
    level: Level,
    target: Seq<char>,
    message: Seq<char>,
    time: crate::clock::Timestamp,
    name: Seq<char>,
)
    requires
        cats_unique(s.categories),
        cat_lookup(s.categories, name) is Some,
    ensures
        cat_lookup(
            sink_log_spec(cfg, s, level, target, message, time).categories,
            name,
        ) == cat_lookup(s.categories, name),
{
    let s2 = sink_log_spec(cfg, s, level, target, message, time);
    if sink_admits(cfg, level, target) && cat_lookup(s.categories, target) is None {
        lemma_cat_lookup_push_fresh(
            s.categories,
            CategoryView { name: target, enabled: cfg.show_all_categories },
        );
        assert(name != target);
    }
}

} // verus!
