use egui_logger::{builder, logger_ui, Level, LevelFilter, LogColor, Timestamp};

#[test]
fn default_viewer_configuration() {
    let ui = logger_ui();
    assert_eq!(ui.max_retained(), 1000);
    assert!(ui.level_enabled(Level::Error));
    assert!(ui.level_enabled(Level::Warn));
    assert!(ui.level_enabled(Level::Info));
    assert!(!ui.level_enabled(Level::Debug));
    assert!(!ui.level_enabled(Level::Trace));
    assert_eq!(ui.search_term(), "");
    assert!(!ui.case_sensitive());
    assert!(!ui.use_regex());
    let style = ui.style();
    assert!(style.enable_regex);
    assert!(style.enable_ctx_menu);
    assert!(style.enable_search);
    assert!(style.include_level);
    assert!(style.include_target);
    assert!(style.enable_cache_layouts);
    assert_eq!(style.warn_color, LogColor::rgb(255, 255, 0));
    assert_eq!(style.error_color, LogColor::rgb(255, 0, 0));
    assert_eq!(style.highlight_color, LogColor::rgb(220, 220, 220));
}

#[test]
fn builder_methods_set_style_flags() {
    let ui = logger_ui()
        .enable_regex(false)
        .enable_ctx_menu(false)
        .show_target(false)
        .include_target(false)
        .include_level(false)
        .enable_copy_button(false)
        .enable_log_count(false)
        .enable_search(false)
        .enable_max_log_output(false)
        .enable_levels_button(false)
        .enable_categories_button(false)
        .enable_time_button(false)
        .enable_cache_layouts(false);
    let style = ui.style();
    assert!(!style.enable_regex);
    assert!(!style.enable_ctx_menu);
    assert!(!style.show_target);
    assert!(!style.include_target);
    assert!(!style.include_level);
    assert!(!style.enable_copy_button);
    assert!(!style.enable_log_count);
    assert!(!style.enable_search);
    assert!(!style.enable_max_log_output);
    assert!(!style.enable_levels_button);
    assert!(!style.enable_categories_button);
    assert!(!style.enable_time_button);
    assert!(!style.enable_cache_layouts);
}

#[test]
fn builder_methods_set_colors_and_levels() {
    let ui = logger_ui()
        .warn_color(LogColor::rgb(1, 2, 3))
        .error_color(LogColor::rgb(4, 5, 6))
        .highlight_color(LogColor::rgb(7, 8, 9))
        .log_levels([true, false, true, false, true])
        .max_log_length(42);
    assert_eq!(ui.style().warn_color, LogColor::rgb(1, 2, 3));
    assert_eq!(ui.style().error_color, LogColor::rgb(4, 5, 6));
    assert_eq!(ui.style().highlight_color, LogColor::rgb(7, 8, 9));
    assert!(ui.level_enabled(Level::Error));
    assert!(!ui.level_enabled(Level::Warn));
    assert!(ui.level_enabled(Level::Info));
    assert!(!ui.level_enabled(Level::Debug));
    assert!(ui.level_enabled(Level::Trace));
    assert_eq!(ui.max_retained(), 42);
}

#[test]
fn mutating_setters_adjust_the_viewer() {
    let mut ui = logger_ui();
    ui.set_max_retained(7);
    assert_eq!(ui.max_retained(), 7);
    ui.set_level_enabled(Level::Trace, true);
    assert!(ui.level_enabled(Level::Trace));
    ui.set_level_enabled(Level::Error, false);
    assert!(!ui.level_enabled(Level::Error));
}

#[test]
fn sink_respects_configured_maximum_level() {
    let strict = builder().max_level(LevelFilter::Error).build();
    assert!(strict.enabled(Level::Error, "app"));
    assert!(!strict.enabled(Level::Warn, "app"));
    let silent = builder().max_level(LevelFilter::Off).build();
    assert!(!silent.enabled(Level::Error, "app"));
    let verbose = builder().max_level(LevelFilter::Trace).build();
    assert!(verbose.enabled(Level::Trace, "app"));
}

#[test]
fn timestamps_from_the_clock_are_well_formed() {
    let t = Timestamp::now();
    assert!(t.hour < 24);
    assert!(t.minute < 60);
    assert!(t.second < 60);
    assert!(t.millisecond < 2000);
}
