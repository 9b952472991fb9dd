use polars::prelude::Column;
use polars::prelude::DataFrame;
use polars::prelude::DataType;
use tabview::model::App;
use tabview::model::Config;
use tabview::model::PlotType;
use tabview::model::SortDirection;

fn people() -> DataFrame {
    DataFrame::new_infer_height(vec![
        Column::new("name".into(), ["Alice", "Bob", "Charlie"]),
        Column::new("age".into(), [30i64, 25, 35]),
    ])
    .unwrap()
}

fn make_app() -> App {
    App::new(people(), "test.csv".to_string())
}

fn get_str(app: &App, col: &str, row: usize) -> String {
    app.view
        .column(col)
        .unwrap()
        .as_materialized_series()
        .cast(&DataType::String)
        .unwrap()
        .str()
        .unwrap()
        .get(row)
        .unwrap_or("")
        .to_string()
}

#[test]
fn test_update_search_finds_matches() {
    let mut app = make_app();
    app.search_query = "alice".to_string();
    app.update_search();
    assert_eq!(app.search_results, vec![0]);
}

#[test]
fn test_update_search_case_insensitive() {
    let mut app = make_app();
    app.search_query = "ALICE".to_string();
    app.update_search();
    assert_eq!(app.search_results, vec![0]);
}

#[test]
fn test_update_search_no_matches() {
    let mut app = make_app();
    app.search_query = "xyz".to_string();
    app.update_search();
    assert!(app.search_results.is_empty());
}

#[test]
fn test_update_filter_finds_matches() {
    let mut app = make_app();
    app.filters = vec![(0, "Bob".to_string())];
    app.update_filter();
    assert_eq!(app.view.height(), 1);
}

#[test]
fn test_autofit_uses_data_width() {
    let mut app = make_app();
    app.state.select_column(Some(0));
    app.autofit_selected_column();
    assert_eq!(app.column_widths[0], 7);
}

#[test]
fn test_sort_by_column_ascending() {
    let mut app = make_app();
    app.state.select_column(Some(0));
    app.sort_by_column();
    assert_eq!(get_str(&app, "name", 0), "Alice");
    assert_eq!(get_str(&app, "name", 1), "Bob");
    assert_eq!(get_str(&app, "name", 2), "Charlie");
}

#[test]
fn test_sort_by_column_toggles_descending() {
    let mut app = make_app();
    app.state.select_column(Some(0));
    app.sort_by_column();
    app.sort_by_column();
    assert_eq!(get_str(&app, "name", 0), "Charlie");
    assert_eq!(get_str(&app, "name", 1), "Bob");
    assert_eq!(get_str(&app, "name", 2), "Alice");
}

#[test]
fn test_empty_dataframe_new() {
    let df = DataFrame::empty();
    let app = App::new(df, "empty.csv".to_string());
    assert!(app.state.selected().is_none());
    assert!(app.state.selected_column().is_none());
    assert!(app.headers.is_empty());
}

#[test]
fn test_update_search_on_empty_view() {
    let df = DataFrame::new_infer_height(vec![
        Column::new("name".into(), ["Alice", "Bob"]),
        Column::new("age".into(), [30i64, 25]),
    ])
    .unwrap();
    let mut app = App::new(df, "test.csv".to_string());
    app.filters = vec![(0, "zzznomatch".to_string())];
    app.update_filter();
    app.search_query = "alice".to_string();
    app.update_search();
    assert!(app.search_results.is_empty());
}

#[test]
fn test_filter_to_zero_rows() {
    let mut app = make_app();
    app.filters = vec![(0, "zzznomatch".to_string())];
    app.update_filter();
    assert_eq!(app.view.height(), 0);
}

#[test]
fn test_autofit_all_columns() {
    let mut app = make_app();
    app.autofit_all_columns();
    assert_eq!(app.column_widths[0], 7);
    assert_eq!(app.column_widths[1], 3);
}

#[test]
fn test_search_after_sort_not_stale() {
    let mut app = make_app();
    app.search_query = "alice".to_string();
    app.update_search();
    let results_before = app.search_results.clone();
    assert!(!results_before.is_empty());
    app.state.select_column(Some(0));
    app.sort_by_column();
    app.sort_by_column();
    assert!(!app.search_results.is_empty());
    assert_ne!(app.search_results, results_before);
}

#[test]
fn test_autofit_accounts_for_groupby_marker() {
    let mut app = make_app();
    app.state.select_column(Some(0));
    app.toggle_groupby_key();
    app.autofit_selected_column();
    assert_eq!(app.column_widths[0], 8);
}

#[test]
fn test_compute_stats_empty_view() {
    let df = DataFrame::new_infer_height(vec![Column::new("val".into(), [1i64, 2, 3])]).unwrap();
    let mut app = App::new(df, "test.csv".to_string());
    app.filters = vec![(0, "zzznomatch".to_string())];
    app.update_filter();
    let stats = app.compute_stats(0);
    assert_eq!(stats.count, 0);
}

#[test]
fn new_app_shows_whole_table() {
    let app = make_app();
    assert_eq!(app.headers, vec!["name".to_string(), "age".to_string()]);
    assert_eq!(app.view.height(), 3);
    assert_eq!(app.column_widths, vec![15, 15]);
    assert_eq!(app.state.selected(), Some(0));
    assert_eq!(app.state.selected_column(), Some(0));
    assert_eq!(app.file_path, "test.csv");
    assert!(app.filters.is_empty());
    assert!(app.sort_column.is_none());
}

#[test]
fn search_reports_every_matching_row_in_order() {
    let df = DataFrame::new_infer_height(vec![Column::new(
        "word".into(),
        ["Banana", "apple", "CABANA", "cherry", "ban"],
    )])
    .unwrap();
    let mut app = App::new(df, "w.csv".to_string());
    app.search_query = "bAn".to_string();
    app.update_search();
    assert_eq!(app.search_results, vec![0, 2, 4]);
    assert_eq!(app.search_cursor, 0);
}

#[test]
fn search_looks_at_the_selected_column_only() {
    let mut app = make_app();
    app.state.select_column(Some(1));
    app.search_query = "3".to_string();
    app.update_search();
    assert_eq!(app.search_results, vec![0, 2]);
    app.state.select_column(Some(0));
    app.update_search();
    assert!(app.search_results.is_empty());
}

#[test]
fn search_skips_null_cells() {
    let df = DataFrame::new_infer_height(vec![Column::new(
        "word".into(),
        [Some("ab"), None, Some("xab")],
    )])
    .unwrap();
    let mut app = App::new(df, "w.csv".to_string());
    app.search_query = "ab".to_string();
    app.update_search();
    assert_eq!(app.search_results, vec![0, 2]);
}

#[test]
fn search_on_missing_column_finds_nothing() {
    let mut app = make_app();
    app.state.select_column(Some(7));
    app.search_query = "a".to_string();
    app.search_results = vec![1];
    app.search_cursor = 1;
    app.update_search();
    assert!(app.search_results.is_empty());
    assert_eq!(app.search_cursor, 0);
}

#[test]
fn search_on_one_row_view_still_matches() {
    let mut app = make_app();
    app.filters = vec![(0, "Bob".to_string())];
    app.update_filter();
    app.search_query = "bob".to_string();
    app.update_search();
    assert_eq!(app.search_results, vec![0]);
}

#[test]
fn filter_is_case_insensitive() {
    let mut app = make_app();
    app.filters = vec![(0, "bOB".to_string())];
    app.update_filter();
    assert_eq!(app.view.height(), 1);
    assert_eq!(get_str(&app, "name", 0), "Bob");
}

#[test]
fn filters_are_anded() {
    let mut app = make_app();
    app.filters = vec![(0, "l".to_string()), (1, "3".to_string())];
    app.update_filter();
    assert_eq!(app.view.height(), 2);
    assert_eq!(get_str(&app, "name", 0), "Alice");
    assert_eq!(get_str(&app, "name", 1), "Charlie");
    app.filters.push((1, "5".to_string()));
    app.update_filter();
    assert_eq!(app.view.height(), 1);
    assert_eq!(get_str(&app, "name", 0), "Charlie");
}

#[test]
fn typed_filter_applies_to_selected_column() {
    let mut app = make_app();
    app.state.select_column(Some(1));
    app.filter_input = "25".to_string();
    app.update_filter();
    assert_eq!(app.view.height(), 1);
    assert_eq!(get_str(&app, "name", 0), "Bob");
}

#[test]
fn filter_is_taken_from_table_not_from_view() {
    let mut app = make_app();
    app.filters = vec![(0, "Bob".to_string())];
    app.update_filter();
    assert_eq!(app.view.height(), 1);
    app.filters = vec![(0, "Alice".to_string())];
    app.update_filter();
    assert_eq!(app.view.height(), 1);
    assert_eq!(get_str(&app, "name", 0), "Alice");
}

#[test]
fn filter_on_missing_column_falls_back_to_whole_table() {
    let mut app = make_app();
    app.filters = vec![(9, "Bob".to_string())];
    app.update_filter();
    assert_eq!(app.view.height(), 3);
}

#[test]
fn clearing_filters_restores_all_rows_still_sorted() {
    let mut app = make_app();
    app.state.select_column(Some(1));
    app.sort_by_column();
    app.filters = vec![(0, "zzznomatch".to_string())];
    app.update_filter();
    assert_eq!(app.view.height(), 0);
    app.filters = Vec::new();
    app.update_filter();
    assert_eq!(app.view.height(), 3);
    assert_eq!(get_str(&app, "name", 0), "Bob");
    assert_eq!(get_str(&app, "name", 1), "Alice");
    assert_eq!(get_str(&app, "name", 2), "Charlie");
}

#[test]
fn filter_keeps_table_order_of_rows() {
    let mut app = make_app();
    app.filters = vec![(0, "e".to_string())];
    app.update_filter();
    assert_eq!(app.view.height(), 2);
    assert_eq!(get_str(&app, "name", 0), "Alice");
    assert_eq!(get_str(&app, "name", 1), "Charlie");
}

#[test]
fn sort_direction_toggles_on_same_column_and_resets_on_another() {
    let mut app = make_app();
    app.state.select_column(Some(0));
    app.sort_by_column();
    assert_eq!(app.sort_column, Some(0));
    assert_eq!(app.sort_direction, SortDirection::Ascending);
    app.sort_by_column();
    assert_eq!(app.sort_direction, SortDirection::Descending);
    app.sort_by_column();
    assert_eq!(app.sort_direction, SortDirection::Ascending);
    app.sort_by_column();
    app.state.select_column(Some(1));
    app.sort_by_column();
    assert_eq!(app.sort_column, Some(1));
    assert_eq!(app.sort_direction, SortDirection::Ascending);
    assert_eq!(get_str(&app, "age", 0), "25");
}

#[test]
fn sort_on_missing_column_changes_nothing() {
    let mut app = make_app();
    app.state.select_column(Some(5));
    app.sort_by_column();
    assert!(app.sort_column.is_none());
    assert_eq!(get_str(&app, "name", 0), "Alice");
}

#[test]
fn sorting_twice_keeps_order_of_equal_keys() {
    let df = DataFrame::new_infer_height(vec![
        Column::new("k".into(), ["b", "a", "b", "a", "b"]),
        Column::new("id".into(), [0i64, 1, 2, 3, 4]),
    ])
    .unwrap();
    let mut app = App::new(df, "k.csv".to_string());
    app.state.select_column(Some(0));
    app.sort_by_column();
    let once: Vec<String> = (0..5).map(|r| get_str(&app, "id", r)).collect();
    assert_eq!(once, vec!["1", "3", "0", "2", "4"]);
    app.sort_by_column();
    let twice: Vec<String> = (0..5).map(|r| get_str(&app, "id", r)).collect();
    assert_eq!(twice, vec!["0", "2", "4", "1", "3"]);
}

#[test]
fn sort_compares_numbers_as_numbers() {
    let df = DataFrame::new_infer_height(vec![Column::new("n".into(), [10i64, 9, 100])]).unwrap();
    let mut app = App::new(df, "n.csv".to_string());
    app.sort_by_column();
    assert_eq!(get_str(&app, "n", 0), "9");
    assert_eq!(get_str(&app, "n", 1), "10");
    assert_eq!(get_str(&app, "n", 2), "100");
}

#[test]
fn header_label_carries_sort_and_group_markers() {
    let mut app = make_app();
    assert_eq!(app.header_label(0), "name");
    app.state.select_column(Some(0));
    app.sort_by_column();
    assert_eq!(app.header_label(0), "name ▲");
    app.sort_by_column();
    assert_eq!(app.header_label(0), "name ▼");
    app.toggle_groupby_key();
    assert_eq!(app.header_label(0), "name ▼ [K]");
    app.state.select_column(Some(1));
    app.cycle_groupby_agg();
    assert_eq!(app.header_label(1), "age [Σ]");
    app.cycle_groupby_agg();
    assert_eq!(app.header_label(1), "age [μ]");
    app.cycle_groupby_agg();
    assert_eq!(app.header_label(1), "age [#]");
    app.cycle_groupby_agg();
    assert_eq!(app.header_label(1), "age [↓]");
    app.cycle_groupby_agg();
    assert_eq!(app.header_label(1), "age [↑]");
    app.cycle_groupby_agg();
    assert_eq!(app.header_label(1), "age");
    assert_eq!(app.header_label(2), "");
}

#[test]
fn autofit_counts_characters_not_bytes() {
    let df = DataFrame::new_infer_height(vec![Column::new("n".into(), ["äöüß", "ab"])]).unwrap();
    let mut app = App::new(df, "n.csv".to_string());
    app.state.select_column(Some(0));
    app.autofit_selected_column();
    assert_eq!(app.column_widths[0], 4);
    app.sort_by_column();
    app.autofit_all_columns();
    assert_eq!(app.column_widths[0], 4);
}

#[test]
fn autofit_without_selected_column_changes_nothing() {
    let mut app = make_app();
    app.state.select_column(None);
    app.autofit_selected_column();
    assert_eq!(app.column_widths, vec![15, 15]);
    app.state.select_column(Some(4));
    app.autofit_selected_column();
    assert_eq!(app.column_widths, vec![15, 15]);
}

#[test]
fn autofit_header_wider_than_cells() {
    let df = DataFrame::new_infer_height(vec![Column::new("quantity".into(), [1i64, 22])]).unwrap();
    let mut app = App::new(df, "q.csv".to_string());
    app.autofit_all_columns();
    assert_eq!(app.column_widths[0], 8);
}

#[test]
fn compute_stats_of_numbers() {
    let mut app = make_app();
    let stats = app.compute_stats(1);
    assert_eq!(stats.count, 3);
    assert_eq!(stats.min, "25");
    assert_eq!(stats.max, "35");
    assert_eq!(stats.mean.map(f64::from_bits), Some(30.0));
    assert_eq!(stats.median.map(f64::from_bits), Some(30.0));
}

#[test]
fn compute_stats_of_text_has_no_mean() {
    let mut app = make_app();
    let stats = app.compute_stats(0);
    assert_eq!(stats.count, 3);
    assert!(stats.mean.is_none());
    assert!(stats.median.is_none());
}

#[test]
fn compute_stats_of_missing_column_is_blank() {
    let mut app = make_app();
    let stats = app.compute_stats(2);
    assert_eq!(stats.count, 0);
    assert_eq!(stats.min, "");
    assert_eq!(stats.max, "");
    assert!(stats.mean.is_none());
    assert!(stats.median.is_none());
}

#[test]
fn config_takes_second_argument() {
    let config = Config::new(vec!["viewer".to_string(), "data.csv".to_string()]);
    assert_eq!(config.ok().map(|c| c.file_path), Some("data.csv".to_string()));
    let missing = Config::new(vec!["viewer".to_string()]);
    assert_eq!(missing.err(), Some("Please provide a valid CSV file path"));
    let none = Config::new(Vec::new());
    assert!(none.is_err());
}

#[test]
fn plot_type_label_names_the_kind() {
    let mut app = make_app();
    assert_eq!(app.plot_type_label(), "Line");
    app.plot_type = PlotType::Bar;
    assert_eq!(app.plot_type_label(), "Bar");
}

#[test]
fn sorting_there_and_back_restores_the_view() {
    let df = DataFrame::new_infer_height(vec![
        Column::new("k".into(), [2.0, 0.0, 1.0, -0.0, 2.0, 1.0]),
        Column::new("id".into(), [0i64, 1, 2, 3, 4, 5]),
    ])
    .unwrap();
    let mut app = App::new(df, "k.csv".to_string());
    app.state.select_column(Some(0));
    app.sort_by_column();
    let sorted: Vec<String> = (0..6).map(|r| get_str(&app, "id", r)).collect();
    assert_eq!(sorted, vec!["1", "3", "2", "5", "0", "4"]);
    app.sort_by_column();
    let reversed: Vec<String> = (0..6).map(|r| get_str(&app, "id", r)).collect();
    assert_eq!(reversed, vec!["0", "4", "2", "5", "1", "3"]);
    app.sort_by_column();
    let back: Vec<String> = (0..6).map(|r| get_str(&app, "id", r)).collect();
    assert_eq!(back, sorted);
}

#[test]
fn text_and_number_columns_always_sort() {
    let mut app = make_app();
    app.state.select_column(Some(0));
    app.sort_by_column();
    app.sort_by_column();
    assert_eq!(get_str(&app, "name", 0), "Charlie");
    app.state.select_column(Some(1));
    app.sort_by_column();
    app.sort_by_column();
    assert_eq!(get_str(&app, "age", 0), "35");
    assert_eq!(get_str(&app, "age", 2), "25");
}
