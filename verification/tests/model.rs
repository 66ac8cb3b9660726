use stock_predictor_lib::config::StockConfig;
use stock_predictor_lib::data::TimeRange;
use stock_predictor_lib::error::AppError;
use stock_predictor_lib::layout::{
    cell_entry, current_page, is_too_small, page_count, time_range_selector_text, warning_area, Area,
};
use stock_predictor_lib::persistence::{AppConfig, PersistenceManager, StoreOutcome, StoredConfig};

fn manager() -> PersistenceManager {
    PersistenceManager::new("/home/u/.config/bstock".to_string(), "/home/u/.config/bstock/config.json".to_string())
}

fn preset() -> Vec<&'static str> {
    vec!["PLTR", "NBIS", "GOOGL", "NVDA", "MSFT", "TSLA", "SLDP", "IREN"]
}

#[test]
fn all_lists_the_five_ranges_in_order() {
    assert_eq!(
        TimeRange::all(),
        vec![
            TimeRange::OneDay,
            TimeRange::FiveDays,
            TimeRange::OneMonth,
            TimeRange::SixMonths,
            TimeRange::YearToDate,
        ]
    );
    assert_eq!(TimeRange::count(), TimeRange::all().len());
    for (i, range) in TimeRange::all().iter().enumerate() {
        assert_eq!(TimeRange::at(i), *range);
    }
}

#[test]
fn each_range_has_its_label_and_its_points() {
    let all = TimeRange::all();
    let labels: Vec<&str> = all.iter().map(|r| r.as_str()).collect();
    assert_eq!(labels, vec!["1D", "5D", "1M", "6M", "YTD"]);
    let points: Vec<usize> = TimeRange::all().iter().map(|r| r.points()).collect();
    assert_eq!(points, vec![2, 5, 30, 180, 365]);
}

#[test]
fn range_positions_cycle_with_wrap() {
    assert_eq!(TimeRange::previous_index(0), 4);
    assert_eq!(TimeRange::next_index(4), 0);
    for i in 0..5usize {
        assert_eq!(TimeRange::next_index(TimeRange::previous_index(i)), i);
        assert_eq!(TimeRange::previous_index(TimeRange::next_index(i)), i);
    }
    assert_eq!(TimeRange::previous_index(3), 2);
    assert_eq!(TimeRange::next_index(2), 3);
    assert_eq!(TimeRange::next_index(9), 0);
}

#[test]
fn each_error_names_its_kind() {
    let read = AppError::ConfigReadError("permission denied".to_string());
    assert_eq!(read.message(), "Failed to read config file");
    assert_eq!(read.detail(), "permission denied");
    let parse = AppError::ConfigParseError("expected value at line 1".to_string());
    assert_eq!(parse.message(), "Failed to parse config file");
    assert_eq!(parse.detail(), "expected value at line 1");
    let api = AppError::ApiError("not found".to_string());
    assert_eq!(api.message(), "Failed to fetch stock data");
    assert_eq!(api.detail(), "not found");
    let io = AppError::Io("broken pipe".to_string());
    assert_eq!(io.message(), "IO Error");
    assert_eq!(io.detail(), "broken pipe");
}

#[test]
fn the_default_document_tracks_eight_presets_over_ninety_days() {
    let config = AppConfig::default();
    assert_eq!(config.stock_config.symbols, preset());
    assert_eq!(config.stock_config.analysis_period_days, 90);
    assert_eq!(config.last_updated, None);
}

#[test]
fn a_missing_store_loads_the_default() {
    let loaded = manager().load_config(StoredConfig::Missing).unwrap();
    assert_eq!(loaded.stock_config.symbols, preset());
    assert_eq!(loaded.stock_config.analysis_period_days, 90);
    assert_eq!(loaded.last_updated, None);
}

#[test]
fn a_found_document_is_loaded_as_it_is() {
    let stored = AppConfig {
        stock_config: StockConfig { symbols: vec!["AAPL".to_string()], analysis_period_days: 30 },
        last_updated: Some(1700000000),
    };
    let loaded = manager().load_config(StoredConfig::Found(stored)).unwrap();
    assert_eq!(loaded.stock_config.symbols, vec!["AAPL"]);
    assert_eq!(loaded.stock_config.analysis_period_days, 30);
    assert_eq!(loaded.last_updated, Some(1700000000));
}

#[test]
fn a_broken_store_fails_to_load() {
    match manager().load_config(StoredConfig::Unreadable("permission denied".to_string())) {
        Err(AppError::ConfigReadError(why)) => assert_eq!(why, "permission denied"),
        other => panic!("{:?} where a read failure was due", other),
    }
    match manager().load_config(StoredConfig::Malformed("trailing comma".to_string())) {
        Err(AppError::ConfigParseError(why)) => assert_eq!(why, "trailing comma"),
        other => panic!("{:?} where a parse failure was due", other),
    }
}

#[test]
fn get_stock_config_never_fails() {
    let found = AppConfig {
        stock_config: StockConfig { symbols: vec![], analysis_period_days: 5 },
        last_updated: None,
    };
    let config = manager().get_stock_config(StoredConfig::Found(found)).unwrap();
    assert!(config.symbols.is_empty());
    assert_eq!(config.analysis_period_days, 5);
    for stored in [
        StoredConfig::Missing,
        StoredConfig::Unreadable("permission denied".to_string()),
        StoredConfig::Malformed("trailing comma".to_string()),
    ] {
        let config = manager().get_stock_config(stored).unwrap();
        assert_eq!(config.symbols, preset());
        assert_eq!(config.analysis_period_days, 90);
    }
}

#[test]
fn save_stock_config_stores_the_configuration_alone() {
    let config = StockConfig { symbols: vec!["AAPL".to_string(), "MSFT".to_string()], analysis_period_days: 14 };
    let document = manager().save_stock_config(&config);
    assert_eq!(document.symbols, vec!["AAPL", "MSFT"]);
    assert_eq!(document.analysis_period_days, 14);
    assert_eq!(config.symbols, vec!["AAPL", "MSFT"]);
    assert_eq!(config.analysis_period_days, 14);
    let empty = StockConfig { symbols: vec![], analysis_period_days: 90 };
    let document = manager().save_stock_config(&empty);
    assert!(document.symbols.is_empty());
    assert_eq!(document.analysis_period_days, 90);
}

#[test]
fn each_store_outcome_has_its_failure() {
    assert!(manager().save_config(StoreOutcome::Stored).is_ok());
    match manager().save_config(StoreOutcome::Unwritable("key must be a string".to_string())) {
        Err(AppError::ConfigParseError(why)) => assert_eq!(why, "key must be a string"),
        other => panic!("{:?} where a parse failure was due", other),
    }
    match manager().save_config(StoreOutcome::Refused("disk full".to_string())) {
        Err(AppError::Io(why)) => assert_eq!(why, "disk full"),
        other => panic!("{:?} where an I/O failure was due", other),
    }
}

#[test]
fn the_manager_keeps_its_paths() {
    let m = manager();
    assert_eq!(m.config_dir, "/home/u/.config/bstock");
    assert_eq!(m.config_file, "/home/u/.config/bstock/config.json");
}

#[test]
fn a_terminal_under_100_by_35_is_too_small() {
    assert!(!is_too_small(100, 35));
    assert!(!is_too_small(200, 60));
    assert!(is_too_small(99, 35));
    assert!(is_too_small(100, 34));
    assert!(is_too_small(0, 0));
}

#[test]
fn the_warning_sits_in_the_middle() {
    assert_eq!(warning_area(80, 24), Area { x: 15, y: 7, width: 50, height: 10 });
    assert_eq!(warning_area(40, 8), Area { x: 0, y: 0, width: 40, height: 8 });
    assert_eq!(warning_area(51, 11), Area { x: 0, y: 0, width: 50, height: 10 });
    assert_eq!(warning_area(0, 0), Area { x: 0, y: 0, width: 0, height: 0 });
    assert_eq!(warning_area(65535, 65535), Area { x: 32742, y: 32762, width: 50, height: 10 });
}

#[test]
fn four_entries_fill_a_page() {
    let counts: Vec<usize> = [0usize, 1, 4, 5, 8, 9].iter().map(|n| page_count(*n)).collect();
    assert_eq!(counts, vec![0, 1, 1, 2, 2, 3]);
    assert_eq!(page_count(usize::MAX), usize::MAX / 4 + 1);
    let pages: Vec<usize> = [0usize, 3, 4, 7, 8].iter().map(|i| current_page(*i)).collect();
    assert_eq!(pages, vec![1, 1, 2, 2, 3]);
}

#[test]
fn cells_show_the_entries_of_their_page_row_by_row() {
    assert_eq!(cell_entry(1, 0, 0, 6), Some(0));
    assert_eq!(cell_entry(1, 0, 1, 6), Some(1));
    assert_eq!(cell_entry(1, 1, 0, 6), Some(2));
    assert_eq!(cell_entry(1, 1, 1, 6), Some(3));
    assert_eq!(cell_entry(2, 0, 0, 6), Some(4));
    assert_eq!(cell_entry(2, 0, 1, 6), Some(5));
    assert_eq!(cell_entry(2, 1, 0, 6), None);
    assert_eq!(cell_entry(1, 0, 0, 0), None);
    assert_eq!(cell_entry(usize::MAX, 1, 1, usize::MAX), None);
}

#[test]
fn the_selector_marks_the_shown_range() {
    assert_eq!(
        time_range_selector_text(TimeRange::OneMonth, true),
        " 1D   5D   [1M]   6M   YTD "
    );
    assert_eq!(
        time_range_selector_text(TimeRange::OneMonth, false),
        " 1D   5D   (1M)   6M   YTD "
    );
    assert_eq!(
        time_range_selector_text(TimeRange::OneDay, true),
        " [1D]   5D   1M   6M   YTD "
    );
    assert_eq!(
        time_range_selector_text(TimeRange::YearToDate, false),
        " 1D   5D   1M   6M   (YTD) "
    );
}
