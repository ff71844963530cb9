use egui_logger::{builder, logger_ui, Level, LogStore, LoggerUi, TimeFormat, Timestamp};

fn ts(millis: i64) -> Timestamp {
    Timestamp::new(millis, 0, 0, 0, 0)
}

/// A viewer whose formatted lines are exactly the raw messages: no level,
/// no target, no timestamp column.
fn bare_ui() -> LoggerUi {
    let mut ui = logger_ui().include_level(false).include_target(false);
    ui.set_time_format(TimeFormat::Hide);
    ui
}

fn three_error_records() -> LogStore {
    let sink = builder().build();
    let mut store = LogStore::new(ts(0));
    sink.log(&mut store, Level::Info, "app", "Error A".to_string(), ts(0));
    sink.log(&mut store, Level::Info, "app", "error b".to_string(), ts(1));
    sink.log(&mut store, Level::Info, "app", "ERROR c".to_string(), ts(2));
    store
}

#[test]
fn case_insensitive_substring_matches_all_three() {
    let mut store = three_error_records();
    let mut ui = bare_ui();
    ui.set_search("error".to_string(), false, false);
    ui.refresh(&mut store);
    assert_eq!(ui.visible_indices(&store), vec![0, 1, 2]);
}

#[test]
fn case_sensitive_substring_matches_exact_case_only() {
    let mut store = three_error_records();
    let mut ui = bare_ui();
    ui.set_search("error".to_string(), true, false);
    ui.refresh(&mut store);
    assert_eq!(ui.visible_indices(&store), vec![1]);
}

#[test]
fn case_insensitive_regex_matches_all_three() {
    let mut store = three_error_records();
    let mut ui = bare_ui();
    ui.set_search("^error".to_string(), false, true);
    ui.refresh(&mut store);
    assert_eq!(ui.visible_indices(&store), vec![0, 1, 2]);
}

#[test]
fn case_sensitive_regex_matches_exact_case_only() {
    let mut store = three_error_records();
    let mut ui = bare_ui();
    ui.set_search("^error".to_string(), true, true);
    ui.refresh(&mut store);
    assert_eq!(ui.visible_indices(&store), vec![1]);
}

#[test]
fn invalid_regex_matches_nothing() {
    let mut store = three_error_records();
    let mut ui = bare_ui();
    ui.set_search("(".to_string(), false, true);
    ui.refresh(&mut store);
    assert!(ui.visible_indices(&store).is_empty());
}

#[test]
fn empty_term_matches_everything() {
    let mut store = three_error_records();
    let mut ui = bare_ui();
    ui.refresh(&mut store);
    assert_eq!(ui.visible_indices(&store), vec![0, 1, 2]);
    assert_eq!(ui.search_term(), "");
    assert!(ui.search_match_at(0));
}

#[test]
fn folding_maps_upper_case_term_onto_lower_case_text() {
    let sink = builder().build();
    let mut store = LogStore::new(ts(0));
    sink.log(&mut store, Level::Info, "app", "error x".to_string(), ts(0));
    let mut ui = bare_ui();
    ui.set_search("ERROR".to_string(), false, false);
    ui.refresh(&mut store);
    assert_eq!(ui.visible_indices(&store), vec![0]);
    ui.set_search("ERROR".to_string(), true, false);
    ui.refresh(&mut store);
    assert!(ui.visible_indices(&store).is_empty());
}

#[test]
fn substring_containment_is_positional() {
    let sink = builder().build();
    let mut store = LogStore::new(ts(0));
    sink.log(&mut store, Level::Info, "app", "abcd".to_string(), ts(0));
    let mut ui = bare_ui();
    ui.set_search("bc".to_string(), true, false);
    ui.refresh(&mut store);
    assert_eq!(ui.visible_indices(&store), vec![0]);
    ui.set_search("xy".to_string(), true, false);
    ui.refresh(&mut store);
    assert!(ui.visible_indices(&store).is_empty());
}

#[test]
fn changing_the_term_back_restores_the_visible_set() {
    let sink = builder().build();
    let mut store = LogStore::new(ts(0));
    sink.log(&mut store, Level::Info, "app", "alpha".to_string(), ts(0));
    sink.log(&mut store, Level::Info, "app", "beta".to_string(), ts(1));
    sink.log(&mut store, Level::Info, "app", "again alpha".to_string(), ts(2));
    let mut ui = bare_ui();

    ui.set_search("a".to_string(), true, false);
    ui.refresh(&mut store);
    let first = ui.visible_indices(&store);

    ui.set_search("b".to_string(), true, false);
    ui.refresh(&mut store);
    let other = ui.visible_indices(&store);
    assert_eq!(other, vec![1]);

    ui.set_search("a".to_string(), true, false);
    ui.refresh(&mut store);
    let second = ui.visible_indices(&store);
    assert_eq!(first, second);
    assert_eq!(second, vec![0, 1, 2]);
}

#[test]
fn match_string_is_the_single_source_of_truth() {
    let mut ui = bare_ui();
    ui.set_search("needle".to_string(), false, false);
    assert!(ui.match_string("a NEEDLE in a haystack"));
    assert!(!ui.match_string("just hay"));
    ui.set_search("ne+dle".to_string(), false, true);
    assert!(ui.match_string("a neeeedle"));
    assert!(!ui.match_string("a nodle"));
}

#[test]
fn search_runs_over_the_formatted_text() {
    // With the level column included, a search for the level name matches
    // even though the message itself does not contain it.
    let sink = builder().build();
    let mut store = LogStore::new(ts(0));
    sink.log(&mut store, Level::Warn, "app", "disk almost full".to_string(), ts(0));
    let mut ui = logger_ui();
    ui.set_time_format(TimeFormat::Hide);
    ui.set_search("WARN".to_string(), true, false);
    ui.refresh(&mut store);
    assert_eq!(ui.visible_indices(&store), vec![0]);
}
