use polars::prelude::Column;
use polars::prelude::DataFrame;
use tabview::events::clear_filters;
use tabview::events::enter_filter_mode;
use tabview::events::enter_search_mode;
use tabview::events::from_filter_to_normal_mode;
use tabview::events::from_search_to_normal_mode;
use tabview::events::go_to_next_search_result;
use tabview::events::go_to_previous_search_result;
use tabview::events::handle_key;
use tabview::events::pop_char_from_filter_query;
use tabview::events::pop_char_from_search_query;
use tabview::events::push_char_to_filter_query;
use tabview::events::push_char_to_search_query;
use tabview::events::to_first_search_query_result;
use tabview::events::to_normal_mode_with_filter;
use tabview::events::Key;
use tabview::model::App;
use tabview::model::Mode;
use tabview::model::PlotType;
use tabview::selection::bring_inside;
use tabview::selection::Selection;

fn make_app() -> App {
    let df = DataFrame::new_infer_height(vec![
        Column::new("name".into(), ["Alice", "Bob", "Charlie", "Alina"]),
        Column::new("age".into(), [30i64, 25, 35, 41]),
    ])
    .unwrap();
    App::new(df, "test.csv".to_string())
}

fn type_text(app: &mut App, text: &str) {
    for c in text.chars() {
        handle_key(app, Key::Char(c));
    }
}

#[test]
fn selection_moves_one_step() {
    let mut s = Selection::new();
    assert_eq!(s.selected(), None);
    s.select_next();
    assert_eq!(s.selected(), Some(0));
    s.select_next();
    assert_eq!(s.selected(), Some(1));
    s.select_previous();
    s.select_previous();
    s.select_previous();
    assert_eq!(s.selected(), Some(0));
    s.select_next_column();
    s.select_next_column();
    assert_eq!(s.selected_column(), Some(1));
    s.select_previous_column();
    assert_eq!(s.selected_column(), Some(0));
    assert_eq!(s.current_column(), 0);
}

#[test]
fn selection_from_nothing_backwards_is_the_last() {
    let mut s = Selection::new();
    s.select_previous();
    assert_eq!(s.selected(), Some(usize::MAX));
    s.select_next();
    assert_eq!(s.selected(), Some(usize::MAX));
    s.select_previous_column();
    assert_eq!(s.selected_column(), Some(usize::MAX));
    s.clamp(3, 2);
    assert_eq!(s.selected(), Some(2));
    assert_eq!(s.selected_column(), Some(1));
}

#[test]
fn selection_jumps_and_saturates() {
    let mut s = Selection::new();
    s.scroll_down_by(20);
    assert_eq!(s.selected(), Some(20));
    s.scroll_up_by(5);
    assert_eq!(s.selected(), Some(15));
    s.scroll_up_by(20);
    assert_eq!(s.selected(), Some(0));
    s.select(Some(usize::MAX - 3));
    s.scroll_down_by(20);
    assert_eq!(s.selected(), Some(usize::MAX));
    s.select_first();
    assert_eq!(s.selected(), Some(0));
    s.select_last();
    assert_eq!(s.selected(), Some(usize::MAX));
}

#[test]
fn clamp_brings_selection_inside_or_drops_it() {
    assert_eq!(bring_inside(Some(7), 3), Some(2));
    assert_eq!(bring_inside(Some(2), 3), Some(2));
    assert_eq!(bring_inside(Some(0), 0), None);
    assert_eq!(bring_inside(None, 3), None);
    let mut s = Selection { row: Some(1), column: Some(1) };
    s.clamp(5, 5);
    assert_eq!(s, Selection { row: Some(1), column: Some(1) });
    s.clamp(0, 1);
    assert_eq!(s, Selection { row: None, column: Some(0) });
}

#[test]
fn navigation_keys_stay_inside_the_view() {
    let mut app = make_app();
    handle_key(&mut app, Key::Up);
    assert_eq!(app.state.selected(), Some(0));
    handle_key(&mut app, Key::Down);
    handle_key(&mut app, Key::Char('j'));
    assert_eq!(app.state.selected(), Some(2));
    handle_key(&mut app, Key::Char('k'));
    assert_eq!(app.state.selected(), Some(1));
    handle_key(&mut app, Key::PageDown);
    assert_eq!(app.state.selected(), Some(3));
    handle_key(&mut app, Key::PageUp);
    assert_eq!(app.state.selected(), Some(0));
    handle_key(&mut app, Key::End);
    assert_eq!(app.state.selected(), Some(3));
    handle_key(&mut app, Key::Home);
    assert_eq!(app.state.selected(), Some(0));
    handle_key(&mut app, Key::Char('G'));
    assert_eq!(app.state.selected(), Some(3));
    handle_key(&mut app, Key::Char('g'));
    assert_eq!(app.state.selected(), Some(0));
    handle_key(&mut app, Key::Right);
    handle_key(&mut app, Key::Char('l'));
    assert_eq!(app.state.selected_column(), Some(1));
    handle_key(&mut app, Key::Left);
    handle_key(&mut app, Key::Char('h'));
    assert_eq!(app.state.selected_column(), Some(0));
    assert_eq!(app.mode, Mode::Normal);
}

#[test]
fn keys_on_an_empty_table_do_nothing_harmful() {
    let mut app = App::new(DataFrame::empty(), "empty.csv".to_string());
    for key in [
        Key::Down,
        Key::Up,
        Key::Right,
        Key::End,
        Key::PageDown,
        Key::Char('s'),
        Key::Char('_'),
        Key::Char('='),
        Key::Char('b'),
        Key::Char('a'),
        Key::Char('B'),
        Key::Char('B'),
        Key::Char('F'),
        Key::Char('n'),
        Key::Char('N'),
        Key::Char('S'),
        Key::Char('/'),
        Key::Char('x'),
        Key::Backspace,
        Key::Enter,
        Key::Esc,
        Key::Char('f'),
        Key::Char('x'),
        Key::Enter,
        Key::Char('p'),
        Key::Enter,
        Key::Char('t'),
        Key::Esc,
        Key::Other,
    ] {
        handle_key(&mut app, key);
        assert!(app.state.selected().is_none());
        assert!(app.state.selected_column().is_none());
    }
    assert_eq!(app.view.height(), 0);
    assert!(!app.should_quit);
}

#[test]
fn q_quits_except_while_typing() {
    let mut app = make_app();
    handle_key(&mut app, Key::Char('/'));
    handle_key(&mut app, Key::Char('q'));
    assert!(!app.should_quit);
    assert_eq!(app.search_query, "q");
    handle_key(&mut app, Key::Esc);
    handle_key(&mut app, Key::Char('f'));
    handle_key(&mut app, Key::Char('q'));
    assert!(!app.should_quit);
    assert_eq!(app.filter_input, "q");
    handle_key(&mut app, Key::Esc);
    handle_key(&mut app, Key::Char('q'));
    assert!(app.should_quit);
    let mut plot = make_app();
    handle_key(&mut plot, Key::Char('p'));
    handle_key(&mut plot, Key::Enter);
    handle_key(&mut plot, Key::Char('q'));
    assert!(plot.should_quit);
}

#[test]
fn search_mode_types_confirms_and_cancels() {
    let mut app = make_app();
    app.search_query = "old".to_string();
    app.search_results = vec![2];
    handle_key(&mut app, Key::Char('/'));
    assert_eq!(app.mode, Mode::Search);
    assert_eq!(app.search_query, "");
    assert!(app.search_results.is_empty());
    type_text(&mut app, "ALI");
    assert_eq!(app.search_query, "ALI");
    assert_eq!(app.search_results, vec![0, 3]);
    handle_key(&mut app, Key::Char('n'));
    assert_eq!(app.search_results, vec![3]);
    handle_key(&mut app, Key::Backspace);
    assert_eq!(app.search_query, "ALI");
    assert_eq!(app.search_results, vec![0, 3]);
    handle_key(&mut app, Key::Enter);
    assert_eq!(app.mode, Mode::Normal);
    assert_eq!(app.state.selected(), Some(0));
    handle_key(&mut app, Key::Char('n'));
    assert_eq!(app.state.selected(), Some(3));
    assert_eq!(app.search_cursor, 1);
    handle_key(&mut app, Key::Char('n'));
    assert_eq!(app.state.selected(), Some(0));
    handle_key(&mut app, Key::Char('N'));
    assert_eq!(app.state.selected(), Some(3));
    handle_key(&mut app, Key::Char('N'));
    assert_eq!(app.state.selected(), Some(0));
    handle_key(&mut app, Key::Char('/'));
    type_text(&mut app, "bo");
    handle_key(&mut app, Key::Esc);
    assert_eq!(app.mode, Mode::Normal);
    assert_eq!(app.search_query, "");
    assert!(app.search_results.is_empty());
    assert_eq!(app.search_cursor, 0);
}

#[test]
fn confirming_a_search_without_match_stays_in_search_mode() {
    let mut app = make_app();
    handle_key(&mut app, Key::Char('/'));
    type_text(&mut app, "zzz");
    handle_key(&mut app, Key::Enter);
    assert_eq!(app.mode, Mode::Search);
    assert_eq!(app.state.selected(), Some(0));
}

#[test]
fn filter_mode_narrows_live_commits_and_cancels() {
    let mut app = make_app();
    handle_key(&mut app, Key::Char('f'));
    assert_eq!(app.mode, Mode::Filter);
    type_text(&mut app, "al");
    assert_eq!(app.view.height(), 2);
    handle_key(&mut app, Key::Char('x'));
    assert_eq!(app.view.height(), 0);
    assert!(app.state.selected().is_none());
    handle_key(&mut app, Key::Backspace);
    assert_eq!(app.view.height(), 2);
    handle_key(&mut app, Key::Enter);
    assert_eq!(app.mode, Mode::Normal);
    assert_eq!(app.filters, vec![(0, "al".to_string())]);
    assert_eq!(app.filter_input, "");
    assert_eq!(app.view.height(), 2);
    handle_key(&mut app, Key::Char('f'));
    type_text(&mut app, "ice");
    assert_eq!(app.view.height(), 1);
    handle_key(&mut app, Key::Esc);
    assert_eq!(app.mode, Mode::Normal);
    assert_eq!(app.filter_input, "");
    assert_eq!(app.filters.len(), 1);
    assert_eq!(app.view.height(), 2);
    handle_key(&mut app, Key::Char('f'));
    handle_key(&mut app, Key::Enter);
    assert_eq!(app.filters.len(), 1);
    handle_key(&mut app, Key::Char('F'));
    assert!(app.filters.is_empty());
    assert_eq!(app.view.height(), 4);
}

#[test]
fn search_results_follow_filter_and_sort() {
    let mut app = make_app();
    handle_key(&mut app, Key::Char('/'));
    type_text(&mut app, "ali");
    handle_key(&mut app, Key::Enter);
    assert_eq!(app.search_results, vec![0, 3]);
    handle_key(&mut app, Key::Char('s'));
    assert_eq!(app.search_results, vec![0, 1]);
    handle_key(&mut app, Key::Char('s'));
    assert_eq!(app.search_results, vec![2, 3]);
    handle_key(&mut app, Key::Char('f'));
    type_text(&mut app, "alin");
    assert_eq!(app.search_results, vec![0]);
    handle_key(&mut app, Key::Esc);
    handle_key(&mut app, Key::Char('F'));
    assert_eq!(app.search_results, vec![2, 3]);
}

#[test]
fn plot_keys_pick_axes_and_toggle_kind() {
    let mut app = make_app();
    handle_key(&mut app, Key::Right);
    handle_key(&mut app, Key::Char('p'));
    assert_eq!(app.mode, Mode::PlotPickX);
    assert_eq!(app.plot_y_col, Some(1));
    assert_eq!(app.plot_x_col, None);
    handle_key(&mut app, Key::Left);
    handle_key(&mut app, Key::Enter);
    assert_eq!(app.mode, Mode::Plot);
    assert_eq!(app.plot_x_col, Some(0));
    assert_eq!(app.plot_y_col, Some(1));
    handle_key(&mut app, Key::Char('t'));
    assert_eq!(app.plot_type, PlotType::Bar);
    assert_eq!(app.plot_x_col, Some(0));
    handle_key(&mut app, Key::Char('t'));
    assert_eq!(app.plot_type, PlotType::Line);
    handle_key(&mut app, Key::Char('p'));
    assert_eq!(app.mode, Mode::Normal);
    handle_key(&mut app, Key::Char('p'));
    handle_key(&mut app, Key::Char('l'));
    handle_key(&mut app, Key::Esc);
    assert_eq!(app.mode, Mode::Normal);
    assert_eq!(app.plot_y_col, None);
    handle_key(&mut app, Key::Char('p'));
    handle_key(&mut app, Key::Enter);
    handle_key(&mut app, Key::Esc);
    assert_eq!(app.mode, Mode::Normal);
}

#[test]
fn toggles_for_stats_help_and_grouping() {
    let mut app = make_app();
    handle_key(&mut app, Key::Char('S'));
    assert!(app.show_stats);
    handle_key(&mut app, Key::Char('S'));
    assert!(!app.show_stats);
    handle_key(&mut app, Key::Char('?'));
    assert!(app.show_help);
    handle_key(&mut app, Key::Esc);
    assert!(!app.show_help);
    handle_key(&mut app, Key::Char('b'));
    assert_eq!(app.groupby_keys, vec![0]);
    handle_key(&mut app, Key::Right);
    handle_key(&mut app, Key::Char('a'));
    handle_key(&mut app, Key::Char('B'));
    assert!(app.groupby_active);
    assert_eq!(app.headers, vec!["name", "age_sum"]);
    assert_eq!(app.state.selected(), Some(0));
    handle_key(&mut app, Key::Char('B'));
    assert!(!app.groupby_active);
    assert_eq!(app.headers, vec!["name", "age"]);
    handle_key(&mut app, Key::Char('_'));
    assert_eq!(app.column_widths, vec![7, 15]);
    handle_key(&mut app, Key::Char('='));
    assert_eq!(app.column_widths, vec![7, 3]);
}

#[test]
fn event_functions_act_as_the_keys_do() {
    let mut app = make_app();
    enter_search_mode(&mut app);
    push_char_to_search_query(&mut app, 'b');
    push_char_to_search_query(&mut app, 'x');
    pop_char_from_search_query(&mut app);
    assert_eq!(app.search_query, "b");
    assert_eq!(app.search_results, vec![1]);
    to_first_search_query_result(&mut app);
    assert_eq!(app.mode, Mode::Normal);
    assert_eq!(app.state.selected(), Some(1));
    go_to_next_search_result(&mut app);
    go_to_previous_search_result(&mut app);
    assert_eq!(app.state.selected(), Some(1));
    from_search_to_normal_mode(&mut app);
    assert!(app.search_results.is_empty());
    go_to_next_search_result(&mut app);
    assert_eq!(app.state.selected(), Some(1));
    enter_filter_mode(&mut app);
    push_char_to_filter_query(&mut app, 'a');
    push_char_to_filter_query(&mut app, 'l');
    pop_char_from_filter_query(&mut app);
    assert_eq!(app.filter_input, "a");
    assert_eq!(app.view.height(), 3);
    to_normal_mode_with_filter(&mut app);
    assert_eq!(app.filters, vec![(0, "a".to_string())]);
    enter_filter_mode(&mut app);
    push_char_to_filter_query(&mut app, 'z');
    from_filter_to_normal_mode(&mut app);
    assert_eq!(app.view.height(), 3);
    clear_filters(&mut app);
    assert_eq!(app.view.height(), 4);
    pop_char_from_search_query(&mut app);
    assert_eq!(app.search_query, "");
}
