use polars::prelude::Column;
use polars::prelude::DataFrame;
use tabview::frame::ColumnKind;
use tabview::model::App;
use tabview::plot::extract_plot_data;
use tabview::plot::extract_plot_data_pub;
use tabview::plot::is_numeric_dtype;
use tabview::plot::label_slots;
use tabview::plot::tallest_label;
use tabview::plot::LabelSlot;
use tabview::plot::PlotPoint;

fn numeric_point(p: &PlotPoint) -> (f64, f64) {
    (f64::from_bits(p.x), f64::from_bits(p.y))
}

fn row_point(p: &PlotPoint) -> (f64, f64) {
    (p.x as f64, f64::from_bits(p.y))
}

#[test]
fn test_extract_plot_basic() {
    let df = DataFrame::new_infer_height(vec![
        Column::new("x".into(), [1i32, 2i32, 3i32]),
        Column::new("y".into(), [10i32, 20i32, 30i32]),
    ])
    .unwrap();
    let app = App::new(df, "test.csv".to_string());
    let (data, x_is_categorical) = extract_plot_data_pub(&app, 0, 1);
    assert!(!data.is_empty(), "both numeric: data should not be empty");
    assert_eq!(data.len(), 3);
    assert_eq!(numeric_point(&data[0]), (1.0, 10.0));
    assert!(!x_is_categorical, "numeric x: not categorical");
}

#[test]
fn test_extract_plot_string_x() {
    let df = DataFrame::new_infer_height(vec![
        Column::new("name".into(), ["alpha", "beta", "gamma"]),
        Column::new("qty".into(), [10i32, 20i32, 30i32]),
    ])
    .unwrap();
    let app = App::new(df, "test.csv".to_string());
    let (data, x_is_categorical) = extract_plot_data_pub(&app, 0, 1);
    assert!(!data.is_empty(), "string x: should use row index");
    assert_eq!(row_point(&data[0]), (0.0, 10.0));
    assert!(x_is_categorical, "string x: should be categorical");
}

#[test]
fn categorical_points_follow_view_rows() {
    let df = DataFrame::new_infer_height(vec![
        Column::new("name".into(), ["alpha", "beta", "gamma"]),
        Column::new("qty".into(), [10.5, 20.0, -3.25]),
    ])
    .unwrap();
    let app = App::new(df, "test.csv".to_string());
    let (data, categorical) = extract_plot_data(&app, 0, 1);
    assert!(categorical);
    let points: Vec<(f64, f64)> = data.iter().map(row_point).collect();
    assert_eq!(points, vec![(0.0, 10.5), (1.0, 20.0), (2.0, -3.25)]);
}

#[test]
fn numeric_points_drop_rows_with_a_missing_value() {
    let df = DataFrame::new_infer_height(vec![
        Column::new("x".into(), [Some(1i64), None, Some(3), Some(4)]),
        Column::new("y".into(), [Some(1.5), Some(2.5), None, Some(4.5)]),
    ])
    .unwrap();
    let app = App::new(df, "test.csv".to_string());
    let (data, categorical) = extract_plot_data(&app, 0, 1);
    assert!(!categorical);
    let points: Vec<(f64, f64)> = data.iter().map(numeric_point).collect();
    assert_eq!(points, vec![(1.0, 1.5), (4.0, 4.5)]);
}

#[test]
fn categorical_points_skip_missing_y_but_keep_row_numbers() {
    let df = DataFrame::new_infer_height(vec![
        Column::new("name".into(), ["a", "b", "c"]),
        Column::new("y".into(), [Some(7i64), None, Some(9)]),
    ])
    .unwrap();
    let app = App::new(df, "test.csv".to_string());
    let (data, categorical) = extract_plot_data(&app, 0, 1);
    assert!(categorical);
    let points: Vec<(f64, f64)> = data.iter().map(row_point).collect();
    assert_eq!(points, vec![(0.0, 7.0), (2.0, 9.0)]);
}

#[test]
fn text_y_gives_no_points() {
    let df = DataFrame::new_infer_height(vec![
        Column::new("x".into(), [1i64, 2]),
        Column::new("name".into(), ["a", "b"]),
    ])
    .unwrap();
    let app = App::new(df, "test.csv".to_string());
    let (data, categorical) = extract_plot_data(&app, 0, 1);
    assert!(data.is_empty());
    assert!(!categorical);
    let (none, flag) = extract_plot_data(&app, 0, 5);
    assert!(none.is_empty());
    assert!(!flag);
}

#[test]
fn missing_x_column_counts_as_categorical() {
    let df = DataFrame::new_infer_height(vec![Column::new("y".into(), [1i64, 2])]).unwrap();
    let app = App::new(df, "test.csv".to_string());
    let (data, categorical) = extract_plot_data(&app, 3, 0);
    assert!(categorical);
    assert_eq!(data.len(), 2);
}

#[test]
fn plot_follows_the_view_not_the_table() {
    let df = DataFrame::new_infer_height(vec![
        Column::new("name".into(), ["a", "b", "c"]),
        Column::new("y".into(), [3i64, 1, 2]),
    ])
    .unwrap();
    let mut app = App::new(df, "test.csv".to_string());
    app.state.select_column(Some(1));
    app.sort_by_column();
    let (data, _) = extract_plot_data(&app, 0, 1);
    let points: Vec<(f64, f64)> = data.iter().map(row_point).collect();
    assert_eq!(points, vec![(0.0, 1.0), (1.0, 2.0), (2.0, 3.0)]);
}

#[test]
fn numeric_kinds() {
    assert!(is_numeric_dtype(ColumnKind::Int8));
    assert!(is_numeric_dtype(ColumnKind::Int16));
    assert!(is_numeric_dtype(ColumnKind::Int32));
    assert!(is_numeric_dtype(ColumnKind::Int64));
    assert!(is_numeric_dtype(ColumnKind::UInt8));
    assert!(is_numeric_dtype(ColumnKind::UInt16));
    assert!(is_numeric_dtype(ColumnKind::UInt32));
    assert!(is_numeric_dtype(ColumnKind::UInt64));
    assert!(is_numeric_dtype(ColumnKind::Float32));
    assert!(is_numeric_dtype(ColumnKind::Float64));
    assert!(!is_numeric_dtype(ColumnKind::Text));
    assert!(!is_numeric_dtype(ColumnKind::Other));
}

#[test]
fn boolean_column_is_not_numeric() {
    let df = DataFrame::new_infer_height(vec![
        Column::new("x".into(), [1i64, 2]),
        Column::new("flag".into(), [true, false]),
    ])
    .unwrap();
    let app = App::new(df, "test.csv".to_string());
    let (data, _) = extract_plot_data(&app, 0, 1);
    assert!(data.is_empty());
}

#[test]
fn x_labels_are_the_cells_of_the_column() {
    let df = DataFrame::new_infer_height(vec![
        Column::new("name".into(), [Some("alpha"), None, Some("gamma")]),
        Column::new("qty".into(), [10i32, 20i32, 30i32]),
    ])
    .unwrap();
    let app = App::new(df, "test.csv".to_string());
    assert_eq!(app.collect_all_x_labels(0, 3), vec!["alpha", "", "gamma"]);
    assert_eq!(app.collect_all_x_labels(0, 2), vec!["alpha", ""]);
    assert_eq!(app.collect_all_x_labels(0, 4), vec!["alpha", "", "gamma", ""]);
    assert_eq!(app.collect_all_x_labels(1, 2), vec!["10", "20"]);
    assert!(app.collect_all_x_labels(0, 0).is_empty());
    assert!(app.collect_all_x_labels(6, 3).is_empty());
}

#[test]
fn all_labels_shown_when_they_fit() {
    let slots = label_slots(3, 11);
    assert_eq!(
        slots,
        vec![
            LabelSlot { label: 0, offset: 0 },
            LabelSlot { label: 1, offset: 5 },
            LabelSlot { label: 2, offset: 10 },
        ]
    );
    assert_eq!(label_slots(1, 11), vec![LabelSlot { label: 0, offset: 0 }]);
    assert!(label_slots(0, 11).is_empty());
    assert!(label_slots(5, 0).is_empty());
}

#[test]
fn labels_are_sampled_evenly_when_they_do_not_fit() {
    let slots = label_slots(10, 4);
    let labels: Vec<usize> = slots.iter().map(|s| s.label).collect();
    let offsets: Vec<u16> = slots.iter().map(|s| s.offset).collect();
    assert_eq!(labels, vec![0, 3, 6, 9]);
    assert_eq!(offsets, vec![0, 1, 2, 3]);
    assert_eq!(label_slots(10, 1), vec![LabelSlot { label: 0, offset: 0 }]);
}

#[test]
fn label_sampling_on_a_wide_chart_does_not_overflow() {
    let slots = label_slots(100_000, 400);
    assert_eq!(slots.len(), 400);
    assert_eq!(slots[0], LabelSlot { label: 0, offset: 0 });
    assert_eq!(slots[399], LabelSlot { label: 99_999, offset: 399 });
    assert_eq!(slots[200].label, 200 * 99_999 / 399);
    assert_eq!(slots[200].offset, 200);
}

#[test]
fn tallest_label_is_longest_in_characters() {
    let labels = vec!["ab".to_string(), "äöüß!".to_string(), "".to_string()];
    assert_eq!(tallest_label(&labels), 5);
    assert_eq!(tallest_label(&Vec::new()), 0);
}
