use polars::prelude::Column;
use polars::prelude::DataFrame;
use tabview::events::handle_key;
use tabview::events::Key;
use tabview::model::App;
use tabview::status::StatusKind;
use tabview::text::decimal_text;
use tabview::text::folded_contains;
use tabview::text::join_texts;
use tabview::text::text_matches;
use tabview::text::width_of;

fn make_app() -> App {
    let df = DataFrame::new_infer_height(vec![
        Column::new("name".into(), ["Alice", "Bob", "Charlie"]),
        Column::new("age".into(), [30i64, 25, 35]),
    ])
    .unwrap();
    App::new(df, "test.csv".to_string())
}

#[test]
fn decimal_text_writes_numbers() {
    assert_eq!(decimal_text(0), "0");
    assert_eq!(decimal_text(7), "7");
    assert_eq!(decimal_text(10), "10");
    assert_eq!(decimal_text(1234567890), "1234567890");
    assert_eq!(decimal_text(u64::MAX as u128 + 1), "18446744073709551616");
}

#[test]
fn join_texts_puts_separator_between() {
    let parts = vec!["a".to_string(), "".to_string(), "c".to_string()];
    assert_eq!(join_texts(&parts, ", "), "a, , c");
    assert_eq!(join_texts(&vec!["only".to_string()], ", "), "only");
    assert_eq!(join_texts(&Vec::new(), ", "), "");
}

#[test]
fn substring_tests() {
    assert!(folded_contains("charlie", "arl"));
    assert!(folded_contains("charlie", ""));
    assert!(!folded_contains("charlie", "charlies"));
    assert!(text_matches("CHARLIE", "arl"));
    assert!(!text_matches("charlie", "ARL"));
    assert!(text_matches("ÄPFEL", "äpf"));
}

#[test]
fn width_counts_characters() {
    assert_eq!(width_of(""), 0);
    assert_eq!(width_of("name [K]"), 8);
    assert_eq!(width_of("name ▼"), 6);
    assert_eq!(width_of(&"x".repeat(70000)), 65535);
}

#[test]
fn plain_status_shows_position_and_file() {
    let mut app = make_app();
    assert_eq!(app.status_kind(), StatusKind::Plain);
    assert_eq!(app.status_text(), " Row 1/3 | Col 1/2 | test.csv  ? help ");
    handle_key(&mut app, Key::Down);
    handle_key(&mut app, Key::Right);
    assert_eq!(app.status_text(), " Row 2/3 | Col 2/2 | test.csv  ? help ");
    let empty = App::new(DataFrame::empty(), "e.csv".to_string());
    assert_eq!(empty.status_text(), " Row 0/0 | Col 0/0 | e.csv  ? help ");
}

#[test]
fn typing_modes_show_the_buffer() {
    let mut app = make_app();
    handle_key(&mut app, Key::Char('/'));
    handle_key(&mut app, Key::Char('b'));
    assert_eq!(app.status_kind(), StatusKind::Search);
    assert_eq!(app.status_text(), " /b_ ");
    handle_key(&mut app, Key::Enter);
    assert_eq!(app.status_kind(), StatusKind::Matches);
    assert_eq!(app.status_text(), " [1/1]  b ");
    handle_key(&mut app, Key::Char('f'));
    handle_key(&mut app, Key::Char('o'));
    assert_eq!(app.status_kind(), StatusKind::Filter);
    assert_eq!(app.status_text(), " f o_ ");
}

#[test]
fn filtered_status_lists_filters() {
    let mut app = make_app();
    app.filters = vec![(0, "a".to_string()), (1, "3".to_string()), (5, "x".to_string())];
    app.update_filter();
    assert_eq!(app.status_kind(), StatusKind::Filtered);
    assert_eq!(
        app.status_text(),
        " [name: a] [age: 3] [?: x] | Row 1/3 | Col 1/2 | test.csv "
    );
}

#[test]
fn group_setup_and_grouped_status() {
    let mut app = make_app();
    handle_key(&mut app, Key::Right);
    handle_key(&mut app, Key::Char('b'));
    handle_key(&mut app, Key::Left);
    handle_key(&mut app, Key::Char('b'));
    assert_eq!(app.status_kind(), StatusKind::GroupSetup);
    assert_eq!(app.status_text(), " GroupBy: age, name | press B to execute ");
    handle_key(&mut app, Key::Char('b'));
    handle_key(&mut app, Key::Char('a'));
    handle_key(&mut app, Key::Char('a'));
    handle_key(&mut app, Key::Char('a'));
    handle_key(&mut app, Key::Char('B'));
    assert_eq!(app.status_kind(), StatusKind::Grouped);
    assert_eq!(
        app.status_text(),
        " ◆ GROUPED  By: age | Agg: name[#] | 3 rows "
    );
}

#[test]
fn plot_status() {
    let mut app = make_app();
    handle_key(&mut app, Key::Right);
    handle_key(&mut app, Key::Char('p'));
    assert_eq!(app.status_kind(), StatusKind::PlotPick);
    assert_eq!(
        app.status_text(),
        " Y: age  —  navigate to X column and press Enter  (Esc to cancel) "
    );
    handle_key(&mut app, Key::Enter);
    assert_eq!(app.status_kind(), StatusKind::Plot);
    assert_eq!(
        app.status_text(),
        " Line chart  |  t toggle line/bar  |  Esc / p to close "
    );
    handle_key(&mut app, Key::Char('t'));
    assert_eq!(
        app.status_text(),
        " Bar chart  |  t toggle line/bar  |  Esc / p to close "
    );
}
