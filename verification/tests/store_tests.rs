use egui_logger::{builder, clear_logs, logger_ui, Level, LevelFilter, LogStore, Timestamp};

fn ts(millis: i64) -> Timestamp {
    Timestamp::new(millis, 0, 0, 0, 0)
}

#[test]
fn refresh_aligns_both_caches_with_the_store() {
    let sink = builder().build();
    let mut store = LogStore::new(ts(0));
    for i in 0..5 {
        sink.log(&mut store, Level::Info, "app", format!("message {i}"), ts(i as i64));
    }
    let mut ui = logger_ui();
    ui.refresh(&mut store);
    assert_eq!(store.len(), 5);
    assert_eq!(ui.layout_cache_len(), 5);
    assert_eq!(ui.search_cache_len(), 5);
}

#[test]
fn refresh_caps_caches_at_the_retention_limit() {
    let sink = builder().build();
    let mut store = LogStore::new(ts(0));
    for i in 0..7 {
        sink.log(&mut store, Level::Info, "app", format!("m{i}"), ts(i as i64));
    }
    let mut ui = logger_ui().max_log_length(3);
    ui.refresh(&mut store);
    assert_eq!(store.len(), 3);
    assert_eq!(ui.layout_cache_len(), 3);
    assert_eq!(ui.search_cache_len(), 3);
}

#[test]
fn eviction_keeps_the_most_recent_records() {
    let sink = builder().build();
    let mut store = LogStore::new(ts(0));
    for i in 0..10 {
        sink.log(&mut store, Level::Info, "app", format!("m{i}"), ts(i as i64));
    }
    let mut ui = logger_ui().max_log_length(3);
    ui.refresh(&mut store);
    let records = store.current_records();
    assert_eq!(records.len(), 3);
    assert_eq!(records[0].message, "m7");
    assert_eq!(records[1].message, "m8");
    assert_eq!(records[2].message, "m9");
    assert!(ui.formatted(0).text.contains("m7"));
    let visible = ui.visible_indices(&store);
    assert_eq!(visible, vec![0, 1, 2]);
}

#[test]
fn refresh_twice_is_byte_identical() {
    let sink = builder().build();
    let mut store = LogStore::new(ts(0));
    for i in 0..4 {
        sink.log(&mut store, Level::Warn, "app", format!("warning {i}"), ts(i as i64));
    }
    let mut ui = logger_ui();
    ui.refresh(&mut store);
    let texts: Vec<String> = (0..ui.layout_cache_len()).map(|i| ui.formatted(i).text.clone()).collect();
    let spans: Vec<_> = (0..ui.layout_cache_len()).map(|i| ui.formatted(i).spans.clone()).collect();
    let matches: Vec<bool> = (0..ui.search_cache_len()).map(|i| ui.search_match_at(i)).collect();
    ui.refresh(&mut store);
    assert_eq!(ui.layout_cache_len(), 4);
    for i in 0..4 {
        assert_eq!(ui.formatted(i).text, texts[i]);
        assert_eq!(ui.formatted(i).spans, spans[i]);
        assert_eq!(ui.search_match_at(i), matches[i]);
    }
}

#[test]
fn clearing_empties_records_and_caches() {
    let sink = builder().build();
    let mut store = LogStore::new(ts(0));
    for i in 0..4 {
        sink.log(&mut store, Level::Info, "app", format!("m{i}"), ts(i as i64));
    }
    let mut ui = logger_ui();
    ui.refresh(&mut store);
    assert_eq!(ui.layout_cache_len(), 4);
    clear_logs(&mut store);
    ui.refresh(&mut store);
    assert_eq!(store.len(), 0);
    assert_eq!(ui.layout_cache_len(), 0);
    assert_eq!(ui.search_cache_len(), 0);
    assert!(ui.visible_indices(&store).is_empty());
    sink.log(&mut store, Level::Info, "app", "after clear".to_string(), ts(99));
    ui.refresh(&mut store);
    assert_eq!(ui.layout_cache_len(), 1);
    assert!(ui.formatted(0).text.contains("after clear"));
}

#[test]
fn level_filter_shows_exactly_the_enabled_levels() {
    let sink = builder().max_level(LevelFilter::Trace).build();
    let mut store = LogStore::new(ts(0));
    let levels = [Level::Error, Level::Warn, Level::Info, Level::Debug, Level::Trace];
    for i in 0..50 {
        let level = levels[i % 5];
        sink.log(&mut store, level, "app", format!("record {i}"), ts(i as i64));
    }
    let mut ui = logger_ui();
    ui.refresh(&mut store);
    assert_eq!(store.len(), 50);
    assert_eq!(ui.visible_indices(&store).len(), 30);
    ui.set_search("record".to_string(), false, false);
    ui.refresh(&mut store);
    assert_eq!(ui.visible_indices(&store).len(), 30);
}

#[test]
fn sink_drops_levels_beyond_the_maximum() {
    let sink = builder().max_level(LevelFilter::Warn).build();
    let mut store = LogStore::new(ts(0));
    assert!(sink.enabled(Level::Error, "app"));
    assert!(sink.enabled(Level::Warn, "app"));
    assert!(!sink.enabled(Level::Info, "app"));
    sink.log(&mut store, Level::Info, "app", "dropped".to_string(), ts(0));
    sink.log(&mut store, Level::Warn, "app", "kept".to_string(), ts(1));
    assert_eq!(store.len(), 1);
    assert_eq!(store.current_records()[0].message, "kept");
}

#[test]
fn blacklisted_category_is_never_collected() {
    let sink = builder().blacklist(vec!["noise".to_string()]).build();
    let mut store = LogStore::new(ts(0));
    assert!(!sink.enabled(Level::Error, "noise"));
    assert!(sink.enabled(Level::Error, "signal"));
    sink.log(&mut store, Level::Error, "noise", "excluded".to_string(), ts(0));
    sink.log(&mut store, Level::Error, "signal", "included".to_string(), ts(1));
    assert_eq!(store.len(), 1);
    assert_eq!(store.current_records()[0].target, "signal");
}

#[test]
fn category_default_follows_flag_at_first_sight() {
    let hide_new = builder().show_all_categories(false).build();
    let show_new = builder().show_all_categories(true).build();
    let mut store = LogStore::new(ts(0));

    hide_new.log(&mut store, Level::Info, "foo", "first foo".to_string(), ts(0));
    assert_eq!(store.category_enabled("foo"), Some(false));

    // Later events through a sink with the opposite default do not change
    // the flag that "foo" got at its first occurrence.
    show_new.log(&mut store, Level::Info, "foo", "second foo".to_string(), ts(1));
    assert_eq!(store.category_enabled("foo"), Some(false));

    show_new.log(&mut store, Level::Info, "bar", "first bar".to_string(), ts(2));
    assert_eq!(store.category_enabled("bar"), Some(true));

    let mut ui = logger_ui();
    ui.refresh(&mut store);
    // Only the "bar" record is visible: both "foo" records carry the
    // disabled category.
    assert_eq!(ui.visible_indices(&store), vec![2]);
}

#[test]
fn categories_can_be_toggled_explicitly() {
    let sink = builder().show_all_categories(false).build();
    let mut store = LogStore::new(ts(0));
    sink.log(&mut store, Level::Info, "foo", "hidden at first".to_string(), ts(0));
    let mut ui = logger_ui();
    ui.refresh(&mut store);
    assert!(ui.visible_indices(&store).is_empty());
    ui = ui.enable_category(&mut store, "foo".to_string(), true);
    ui.refresh(&mut store);
    assert_eq!(ui.visible_indices(&store), vec![0]);
}

#[test]
fn category_column_tracks_longest_name() {
    let sink = builder().build();
    let mut store = LogStore::new(ts(0));
    sink.log(&mut store, Level::Info, "ab", "m".to_string(), ts(0));
    assert_eq!(store.max_category_length(), 2);
    sink.log(&mut store, Level::Info, "abcdef", "m".to_string(), ts(1));
    assert_eq!(store.max_category_length(), 6);
    sink.log(&mut store, Level::Info, "xyz", "m".to_string(), ts(2));
    assert_eq!(store.max_category_length(), 6);
}
