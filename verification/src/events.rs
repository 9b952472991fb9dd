//! The mode state machine: what one key press does to the viewer. The
//! caller reads the keys and draws the frames; everything between a key and
//! the next frame is decided here.
use crate::frame::frame_height;
use crate::groupby::applied_grouping;
use crate::groupby::cleared_grouping;
use crate::groupby::cycled_aggregation;
use crate::groupby::toggled_key;
use crate::layout::fitted_all;
use crate::layout::fitted_selected;
use crate::model::App;
use crate::model::Mode;
use crate::model::PlotType;
use crate::selection::clamped;
use crate::selection::jump_back;
use crate::selection::jump_forward;
use crate::selection::step_back;
use crate::selection::step_forward;
use crate::selection::Selection;
use crate::selection::PAGE_SCROLL_AMOUNT;
use crate::text::pop_char;
use crate::text::push_char;
use crate::view::derived_view;
use crate::view::sorted_by_selected;
use vstd::prelude::*;

verus! {

/// A key press, as far as the viewer tells keys apart.
#[derive(Clone, Copy, Debug, PartialEq, Eq, Structural)]
pub enum Key {
    Char(char),
    Up,
    Down,
    Left,
    Right,
    PageUp,
    PageDown,
    Home,
    End,
    Backspace,
    Enter,
    Esc,
    Other,
}

/// The mode after a key press. `has_match` says whether the search has a
/// current match to jump to: confirming a search without one stays in
/// search mode.
pub open spec fn next_mode(mode: Mode, key: Key, has_match: bool) -> Mode {
    match mode {
        Mode::Normal => match key {
            Key::Char(c) => if c == '/' {
                Mode::Search
            } else if c == 'f' {
                Mode::Filter
            } else if c == 'p' {
                Mode::PlotPickX
            } else {
                Mode::Normal
            },
            _ => Mode::Normal,
        },
        Mode::Search => match key {
            Key::Enter => if has_match {
                Mode::Normal
            } else {
                Mode::Search
            },
            Key::Esc => Mode::Normal,
            _ => Mode::Search,
        },
        Mode::Filter => match key {
            Key::Enter => Mode::Normal,
            Key::Esc => Mode::Normal,
            _ => Mode::Filter,
        },
        Mode::PlotPickX => match key {
            Key::Enter => Mode::Plot,
            Key::Esc => Mode::Normal,
            _ => Mode::PlotPickX,
        },
        Mode::Plot => match key {
            Key::Esc => Mode::Normal,
            Key::Char(c) => if c == 'p' {
                Mode::Normal
            } else {
                Mode::Plot
            },
            _ => Mode::Plot,
        },
    }
}

/// The key press ends the session: `q` wherever it is not text.
pub open spec fn quits(mode: Mode, key: Key) -> bool {
    &&& key == Key::Char('q')
    &&& mode != Mode::Search
    &&& mode != Mode::Filter
}

/// The key moves the selection: the arrow, page and end keys, and the
/// letters that stand for them.
pub open spec fn is_navigation(key: Key) -> bool {
    match key {
        Key::Down => true,
        Key::Up => true,
        Key::Left => true,
        Key::Right => true,
        Key::PageDown => true,
        Key::PageUp => true,
        Key::Home => true,
        Key::End => true,
        Key::Char(c) => c == 'j' || c == 'k' || c == 'h' || c == 'l' || c == 'g' || c == 'G',
        _ => false,
    }
}

/// The key moves the selection from one column to another.
pub open spec fn is_column_navigation(key: Key) -> bool {
    match key {
        Key::Left => true,
        Key::Right => true,
        Key::Char(c) => c == 'h' || c == 'l',
        _ => false,
    }
}

/// The key moves the selection in this mode: any navigation key in normal
/// mode, a column key while the x axis of a plot is chosen.
pub open spec fn moves_selection(mode: Mode, key: Key) -> bool {
    match mode {
        Mode::Normal => is_navigation(key),
        Mode::PlotPickX => is_column_navigation(key),
        _ => false,
    }
}

/// Where a navigation key takes the selection, before it is brought back
/// inside the view.
pub open spec fn moved(state: Selection, key: Key) -> Selection {
    match key {
        Key::Down => Selection { row: Some(step_forward(state.row)), column: state.column },
        Key::Up => Selection { row: Some(step_back(state.row)), column: state.column },
        Key::Right => Selection { row: state.row, column: Some(step_forward(state.column)) },
        Key::Left => Selection { row: state.row, column: Some(step_back(state.column)) },
        Key::PageDown => Selection {
            row: Some(jump_forward(state.row, PAGE_SCROLL_AMOUNT)),
            column: state.column,
        },
        Key::PageUp => Selection {
            row: Some(jump_back(state.row, PAGE_SCROLL_AMOUNT)),
            column: state.column,
        },
        Key::Home => Selection { row: Some(0usize), column: state.column },
        Key::End => Selection { row: Some(usize::MAX), column: state.column },
        Key::Char(c) => if c == 'j' {
            Selection { row: Some(step_forward(state.row)), column: state.column }
        } else if c == 'k' {
            Selection { row: Some(step_back(state.row)), column: state.column }
        } else if c == 'l' {
            Selection { row: state.row, column: Some(step_forward(state.column)) }
        } else if c == 'h' {
            Selection { row: state.row, column: Some(step_back(state.column)) }
        } else if c == 'g' {
            Selection { row: Some(0usize), column: state.column }
        } else if c == 'G' {
            Selection { row: Some(usize::MAX), column: state.column }
        } else {
            state
        },
        _ => state,
    }
}

/// The key means something in this mode.
pub open spec fn is_bound(mode: Mode, key: Key) -> bool {
    match mode {
        Mode::Normal => is_navigation(key) || key == Key::Esc || (key matches Key::Char(c) && (c
            == 'q' || c == '_' || c == '=' || c == '/' || c == 'n' || c == 'N' || c == 'f' || c
            == 'F' || c == 's' || c == 'S' || c == 'b' || c == 'a' || c == 'B' || c == 'p' || c
            == '?')),
        Mode::Search => key == Key::Backspace || key == Key::Enter || key == Key::Esc
            || key is Char,
        Mode::Filter => key == Key::Backspace || key == Key::Enter || key == Key::Esc
            || key is Char,
        Mode::PlotPickX => is_column_navigation(key) || key == Key::Enter || key == Key::Esc
            || key == Key::Char('q'),
        Mode::Plot => key == Key::Esc || (key matches Key::Char(c) && (c == 'p' || c == 't' || c
            == 'q')),
    }
}

/// A selection brought back inside a grid.
pub open spec fn clamped_selection(state: Selection, rows: usize, columns: usize) -> Selection {
    Selection { row: clamped(state.row, rows), column: clamped(state.column, columns) }
}

/// Every mode but the normal one goes back to it on escape, and no key
/// leads from the normal mode anywhere but to search, filter and the choice
/// of a plot axis.
pub proof fn lemma_modes(mode: Mode, key: Key, has_match: bool)
    ensures
        next_mode(mode, Key::Esc, has_match) == Mode::Normal,
        mode == Mode::Normal ==> next_mode(mode, key, has_match) != Mode::Plot,
        next_mode(mode, key, has_match) == Mode::Plot ==> mode == Mode::Plot || (mode
            == Mode::PlotPickX && key == Key::Enter),
{
}

impl App {
    /// The search has a current match: a result under the cursor.
    pub open spec fn has_match(self) -> bool {
        self.search_cursor < self.search_results@.len()
    }

    /// The number of rows of the view.
    pub open spec fn row_count(self) -> usize {
        frame_height(self.view) as usize
    }

    /// The selection lies inside the view.
    pub open spec fn selection_in_view(self) -> bool {
        self.state.within(self.row_count(), self.headers@.len() as usize)
    }
}

/// What starting a search does: the mode is search, and the earlier query
/// and its results are dropped.
pub open spec fn entered_search(before: App, after: App) -> bool {
    &&& after.search_query@.len() == 0
    &&& after.search_results@.len() == 0
    &&& after == (App {
        mode: Mode::Search,
        search_query: after.search_query,
        search_results: after.search_results,
        search_cursor: 0,
        ..before
    })
}

/// What starting a filter does: the mode is filter, with nothing typed.
pub open spec fn entered_filter(before: App, after: App) -> bool {
    &&& after.filter_input@.len() == 0
    &&& after == (App { mode: Mode::Filter, filter_input: after.filter_input, ..before })
}

/// What a change of the query does: with the new query the view is searched
/// again, the cursor stands on the first result, and nothing else changes.
pub open spec fn searched_for(before: App, query: Seq<char>, after: App) -> bool {
    &&& after.search_query@ == query
    &&& after.search_is_current()
    &&& after == (App {
        search_query: after.search_query,
        search_results: after.search_results,
        search_cursor: 0,
        ..before
    })
}

/// What a change of the filter being typed does: with the new text the view
/// is derived again, and nothing else changes.
pub open spec fn filtered_by(before: App, typed: Seq<char>, after: App) -> bool {
    &&& after.filter_input@ == typed
    &&& derived_view(App { filter_input: after.filter_input, ..before }, after)
}

/// A text without its last character; an empty text stays empty.
pub open spec fn without_last(text: Seq<char>) -> Seq<char> {
    if text.len() > 0 {
        text.drop_last()
    } else {
        text
    }
}

/// What confirming a search does: with a match under the cursor the
/// selection moves to its row and the mode is normal; without one nothing
/// happens.
pub open spec fn confirmed_search(before: App, after: App) -> bool {
    if before.has_match() {
        after == (App {
            mode: Mode::Normal,
            state: Selection {
                row: Some(before.search_results@[before.search_cursor as int]),
                column: before.state.column,
            },
            ..before
        })
    } else {
        after == before
    }
}

/// What confirming a filter does: the mode is normal; a text that was typed
/// joins the committed filters on the selected column, the typing buffer is
/// emptied and the view is derived again; without a text nothing else
/// changes.
pub open spec fn confirmed_filter(before: App, after: App) -> bool {
    if before.filter_input@.len() == 0 {
        after == (App { mode: Mode::Normal, ..before })
    } else {
        &&& after.filters@ == before.filters@.push(
            (before.state.column_or_first(), before.filter_input),
        )
        &&& after.filter_input@.len() == 0
        &&& derived_view(
            App {
                mode: Mode::Normal,
                filters: after.filters,
                filter_input: after.filter_input,
                ..before
            },
            after,
        )
    }
}

/// What giving a search up does: the mode is normal, and query and results
/// are dropped.
pub open spec fn cancelled_search(before: App, after: App) -> bool {
    &&& after.search_query@.len() == 0
    &&& after.search_results@.len() == 0
    &&& after == (App {
        mode: Mode::Normal,
        search_query: after.search_query,
        search_results: after.search_results,
        search_cursor: 0,
        ..before
    })
}

/// What giving a filter up does: the mode is normal, the text that was
/// typed is dropped, and the view is derived again from the committed
/// filters.
pub open spec fn cancelled_filter(before: App, after: App) -> bool {
    &&& after.filter_input@.len() == 0
    &&& derived_view(
        App { mode: Mode::Normal, filter_input: after.filter_input, ..before },
        after,
    )
}

/// What dropping all filters does: none is committed, none is being typed,
/// and the view is derived again.
pub open spec fn dropped_filters(before: App, after: App) -> bool {
    &&& after.filters@.len() == 0
    &&& after.filter_input@.len() == 0
    &&& derived_view(
        App { filters: after.filters, filter_input: after.filter_input, ..before },
        after,
    )
}

/// The cursor one match further, going round to the first after the last.
pub open spec fn cursor_after(cursor: usize, matches: nat) -> usize {
    if cursor + 1 < matches {
        (cursor + 1) as usize
    } else {
        0
    }
}

/// The cursor one match back, going round to the last before the first.
pub open spec fn cursor_before(cursor: usize, matches: nat) -> usize {
    if cursor > 0 && cursor <= matches {
        (cursor - 1) as usize
    } else {
        (matches - 1) as usize
    }
}

/// What a move of the cursor to another match does: the selection moves to
/// the row of that match. Without matches nothing happens.
pub open spec fn moved_to_match(before: App, cursor: usize, after: App) -> bool {
    if before.search_results@.len() == 0 {
        after == before
    } else {
        &&& cursor < before.search_results@.len()
        &&& after == (App {
            search_cursor: cursor,
            state: Selection {
                row: Some(before.search_results@[cursor as int]),
                column: before.state.column,
            },
            ..before
        })
    }
}

/// The other kind of chart.
pub open spec fn other_plot_type(kind: PlotType) -> PlotType {
    match kind {
        PlotType::Line => PlotType::Bar,
        PlotType::Bar => PlotType::Line,
    }
}

/// What the key for grouping does: a grouping that is shown is ended, and
/// otherwise the one that was set up is run.
pub open spec fn toggled_grouping(before: App, after: App) -> bool {
    if before.groupby_active {
        cleared_grouping(before, after)
    } else {
        applied_grouping(before, after)
    }
}

/// What a letter does in normal mode.
pub open spec fn normal_letter_acts(before: App, c: char, after: App) -> bool {
    if c == 'q' {
        after == (App { should_quit: true, ..before })
    } else if c == 'j' || c == 'k' || c == 'h' || c == 'l' || c == 'g' || c == 'G' {
        after == (App { state: moved(before.state, Key::Char(c)), ..before })
    } else if c == '_' {
        fitted_selected(before, after)
    } else if c == '=' {
        fitted_all(before, after)
    } else if c == '/' {
        entered_search(before, after)
    } else if c == 'n' {
        moved_to_match(
            before,
            cursor_after(before.search_cursor, before.search_results@.len()),
            after,
        )
    } else if c == 'N' {
        moved_to_match(
            before,
            cursor_before(before.search_cursor, before.search_results@.len()),
            after,
        )
    } else if c == 'f' {
        entered_filter(before, after)
    } else if c == 'F' {
        dropped_filters(before, after)
    } else if c == 's' {
        sorted_by_selected(before, after)
    } else if c == 'S' {
        after == (App { show_stats: !before.show_stats, ..before })
    } else if c == 'b' {
        toggled_key(before, after)
    } else if c == 'a' {
        cycled_aggregation(before, after)
    } else if c == 'B' {
        toggled_grouping(before, after)
    } else if c == 'p' {
        after == (App {
            mode: Mode::PlotPickX,
            plot_y_col: Some(before.state.column_or_first()),
            plot_x_col: None,
            ..before
        })
    } else if c == '?' {
        after == (App { show_help: !before.show_help, ..before })
    } else {
        after == before
    }
}

/// What a key does in normal mode.
pub open spec fn normal_key_acts(before: App, key: Key, after: App) -> bool {
    match key {
        Key::Char(c) => normal_letter_acts(before, c, after),
        Key::Esc => after == (App { show_help: false, ..before }),
        Key::Backspace => after == before,
        Key::Enter => after == before,
        Key::Other => after == before,
        _ => after == (App { state: moved(before.state, key), ..before }),
    }
}

/// What a key does while a query is typed.
pub open spec fn search_key_acts(before: App, key: Key, after: App) -> bool {
    match key {
        Key::Char(c) => searched_for(before, before.search_query@.push(c), after),
        Key::Backspace => searched_for(before, without_last(before.search_query@), after),
        Key::Enter => confirmed_search(before, after),
        Key::Esc => cancelled_search(before, after),
        _ => after == before,
    }
}

/// What a key does while a filter is typed.
pub open spec fn filter_key_acts(before: App, key: Key, after: App) -> bool {
    match key {
        Key::Char(c) => filtered_by(before, before.filter_input@.push(c), after),
        Key::Backspace => filtered_by(before, without_last(before.filter_input@), after),
        Key::Enter => confirmed_filter(before, after),
        Key::Esc => cancelled_filter(before, after),
        _ => after == before,
    }
}

/// What a key does while the x axis of a plot is chosen.
pub open spec fn plot_pick_key_acts(before: App, key: Key, after: App) -> bool {
    if is_column_navigation(key) {
        after == (App { state: moved(before.state, key), ..before })
    } else if key == Key::Enter {
        after == (App {
            mode: Mode::Plot,
            plot_x_col: Some(before.state.column_or_first()),
            ..before
        })
    } else if key == Key::Esc {
        after == (App { mode: Mode::Normal, plot_x_col: None, plot_y_col: None, ..before })
    } else if key == Key::Char('q') {
        after == (App { should_quit: true, ..before })
    } else {
        after == before
    }
}

/// What a key does while a chart is shown.
pub open spec fn plot_key_acts(before: App, key: Key, after: App) -> bool {
    if key == Key::Esc || key == Key::Char('p') {
        after == (App { mode: Mode::Normal, ..before })
    } else if key == Key::Char('t') {
        after == (App { plot_type: other_plot_type(before.plot_type), ..before })
    } else if key == Key::Char('q') {
        after == (App { should_quit: true, ..before })
    } else {
        after == before
    }
}

/// What a key does in the mode the viewer is in, before the selection is
/// brought back inside the view.
pub open spec fn key_acts(before: App, key: Key, after: App) -> bool {
    match before.mode {
        Mode::Normal => normal_key_acts(before, key, after),
        Mode::Search => search_key_acts(before, key, after),
        Mode::Filter => filter_key_acts(before, key, after),
        Mode::PlotPickX => plot_pick_key_acts(before, key, after),
        Mode::Plot => plot_key_acts(before, key, after),
    }
}

/// `after` is `acted` with its selection brought back inside its view.
pub open spec fn is_clamped(acted: App, after: App) -> bool {
    after == (App {
        state: clamped_selection(acted.state, acted.row_count(), acted.headers@.len() as usize),
        ..acted
    })
}

/// Starts a search: the earlier query and its results are dropped.
pub fn enter_search_mode(app: &mut App)
    ensures
        entered_search(*old(app), *final(app)),
{
    app.mode = Mode::Search;
    app.search_results = Vec::new();
    app.search_query = String::new();
    app.search_cursor = 0;
}

/// Starts a filter on the selected column, with nothing typed yet.
pub fn enter_filter_mode(app: &mut App)
    ensures
        entered_filter(*old(app), *final(app)),
{
    app.mode = Mode::Filter;
    app.filter_input = String::new();
}

/// Adds a character to the query and searches again.
pub fn push_char_to_search_query(app: &mut App, c: char)
    ensures
        searched_for(*old(app), old(app).search_query@.push(c), *final(app)),
        old(app).wf() ==> final(app).wf(),
{
    push_char(&mut app.search_query, c);
    app.update_search();
}

/// Adds a character to the filter being typed and derives the view again.
pub fn push_char_to_filter_query(app: &mut App, c: char)
    ensures
        filtered_by(*old(app), old(app).filter_input@.push(c), *final(app)),
        old(app).wf() ==> final(app).wf(),
{
    push_char(&mut app.filter_input, c);
    app.update_filter();
}

/// Removes the last character of the query and searches again.
pub fn pop_char_from_search_query(app: &mut App)
    ensures
        searched_for(*old(app), without_last(old(app).search_query@), *final(app)),
        old(app).wf() ==> final(app).wf(),
{
    pop_char(&mut app.search_query);
    app.update_search();
}

/// Removes the last character of the filter being typed and derives the
/// view again.
pub fn pop_char_from_filter_query(app: &mut App)
    ensures
        filtered_by(*old(app), without_last(old(app).filter_input@), *final(app)),
        old(app).wf() ==> final(app).wf(),
{
    pop_char(&mut app.filter_input);
    app.update_filter();
}

/// Confirms a search: the selection moves to the match under the cursor
/// and the mode goes back to normal. Without a match nothing happens.
pub fn to_first_search_query_result(app: &mut App)
    ensures
        confirmed_search(*old(app), *final(app)),
{
    if app.search_cursor >= app.search_results.len() {
        return ;
    }
    app.state.select(Some(app.search_results[app.search_cursor]));
    app.mode = Mode::Normal;
}

/// Confirms a filter: the text that was typed, unless it is empty, joins
/// the committed filters on the selected column, and the view is derived
/// again. The mode goes back to normal.
pub fn to_normal_mode_with_filter(app: &mut App)
    ensures
        confirmed_filter(*old(app), *final(app)),
        final(app).mode == Mode::Normal,
        final(app).filter_input@.len() == 0,
        old(app).wf() ==> final(app).wf(),
{
    app.mode = Mode::Normal;
    if !app.filter_input.as_str().is_empty() {
        let mut text = String::new();
        std::mem::swap(&mut text, &mut app.filter_input);
        app.filters.push((app.state.current_column(), text));
        app.update_filter();
    }
}

/// Leaves search mode without a search: query and results are dropped.
pub fn from_search_to_normal_mode(app: &mut App)
    ensures
        cancelled_search(*old(app), *final(app)),
{
    app.mode = Mode::Normal;
    app.search_results = Vec::new();
    app.search_query = String::new();
    app.search_cursor = 0;
}

/// Leaves filter mode without committing: the text that was typed is
/// dropped and the view is derived again from the committed filters.
pub fn from_filter_to_normal_mode(app: &mut App)
    ensures
        cancelled_filter(*old(app), *final(app)),
        old(app).wf() ==> final(app).wf(),
{
    app.mode = Mode::Normal;
    app.filter_input = String::new();
    app.update_filter();
}

/// Drops every filter, committed or being typed, and derives the view
/// again: outside a grouping it holds every row of the table.
pub fn clear_filters(app: &mut App)
    ensures
        dropped_filters(*old(app), *final(app)),
        final(app).active_filters().len() == 0,
        !final(app).groupby_active ==> frame_height(final(app).view) == frame_height(
            final(app).df,
        ),
        old(app).wf() ==> final(app).wf(),
{
    app.filter_input = String::new();
    app.filters = Vec::new();
    app.update_filter();
}

/// Moves the selection to the next match. Without matches nothing happens.
pub fn go_to_next_search_result(app: &mut App)
    ensures
        moved_to_match(
            *old(app),
            cursor_after(old(app).search_cursor, old(app).search_results@.len()),
            *final(app),
        ),
{
    let matches = app.search_results.len();
    if matches == 0 {
        return ;
    }
    app.search_cursor = if app.search_cursor < matches - 1 {
        app.search_cursor + 1
    } else {
        0
    };
    app.state.select(Some(app.search_results[app.search_cursor]));
}

/// Moves the selection to the previous match. Without matches nothing
/// happens.
pub fn go_to_previous_search_result(app: &mut App)
    ensures
        moved_to_match(
            *old(app),
            cursor_before(old(app).search_cursor, old(app).search_results@.len()),
            *final(app),
        ),
{
    let matches = app.search_results.len();
    if matches == 0 {
        return ;
    }
    app.search_cursor = if app.search_cursor > 0 && app.search_cursor <= matches {
        app.search_cursor - 1
    } else {
        matches - 1
    };
    app.state.select(Some(app.search_results[app.search_cursor]));
}

/// Starts a plot: the selected column becomes the y axis, and the x axis
/// is chosen next.
pub fn enter_plot_pick(app: &mut App)
    ensures
        *final(app) == (App {
            mode: Mode::PlotPickX,
            plot_y_col: Some(old(app).state.column_or_first()),
            plot_x_col: None,
            ..*old(app)
        }),
{
    app.plot_y_col = Some(app.state.current_column());
    app.plot_x_col = None;
    app.mode = Mode::PlotPickX;
}

/// Confirms the x axis: the selected column, and the chart is shown.
pub fn confirm_plot_pick(app: &mut App)
    ensures
        *final(app) == (App {
            mode: Mode::Plot,
            plot_x_col: Some(old(app).state.column_or_first()),
            ..*old(app)
        }),
{
    app.plot_x_col = Some(app.state.current_column());
    app.mode = Mode::Plot;
}

/// Gives the plot up before it is shown: both axes are forgotten.
pub fn cancel_plot_pick(app: &mut App)
    ensures
        *final(app) == (App {
            mode: Mode::Normal,
            plot_x_col: None,
            plot_y_col: None,
            ..*old(app)
        }),
{
    app.plot_x_col = None;
    app.plot_y_col = None;
    app.mode = Mode::Normal;
}

/// Closes the chart.
pub fn close_plot(app: &mut App)
    ensures
        *final(app) == (App { mode: Mode::Normal, ..*old(app) }),
{
    app.mode = Mode::Normal;
}

/// Switches between a line chart and a bar chart; axes and data stay.
pub fn toggle_plot_type(app: &mut App)
    ensures
        *final(app) == (App { plot_type: other_plot_type(old(app).plot_type), ..*old(app) }),
{
    app.plot_type =
    match app.plot_type {
        PlotType::Line => PlotType::Bar,
        PlotType::Bar => PlotType::Line,
    };
}

/// Runs the grouping that was set up, or ends the one that is shown.
pub fn toggle_groupby(app: &mut App)
    ensures
        toggled_grouping(*old(app), *final(app)),
        final(app).mode == old(app).mode,
        final(app).should_quit == old(app).should_quit,
        old(app).wf() ==> final(app).wf(),
{
    if app.groupby_active {
        app.clear_groupby();
    } else {
        app.apply_groupby();
    }
}

/// A key in normal mode.
fn normal_key(app: &mut App, key: Key)
    requires
        old(app).mode == Mode::Normal,
    ensures
        normal_key_acts(*old(app), key, *final(app)),
        final(app).mode == next_mode(Mode::Normal, key, old(app).has_match()),
        final(app).should_quit == (old(app).should_quit || quits(Mode::Normal, key)),
        moves_selection(Mode::Normal, key) ==> *final(app) == (App {
            state: moved(old(app).state, key),
            ..*old(app)
        }),
        !is_bound(Mode::Normal, key) ==> *final(app) == *old(app),
        old(app).wf() ==> final(app).wf(),
{
    match key {
        Key::Down => app.state.select_next(),
        Key::Up => app.state.select_previous(),
        Key::Left => app.state.select_previous_column(),
        Key::Right => app.state.select_next_column(),
        Key::PageDown => app.state.scroll_down_by(PAGE_SCROLL_AMOUNT),
        Key::PageUp => app.state.scroll_up_by(PAGE_SCROLL_AMOUNT),
        Key::Home => app.state.select_first(),
        Key::End => app.state.select_last(),
        Key::Esc => {
            app.show_help = false;
        },
        Key::Char(c) => {
            if c == 'q' {
                app.should_quit = true;
            } else if c == 'j' {
                app.state.select_next();
            } else if c == 'k' {
                app.state.select_previous();
            } else if c == 'h' {
                app.state.select_previous_column();
            } else if c == 'l' {
                app.state.select_next_column();
            } else if c == 'g' {
                app.state.select_first();
            } else if c == 'G' {
                app.state.select_last();
            } else if c == '_' {
                app.autofit_selected_column();
            } else if c == '=' {
                app.autofit_all_columns();
            } else if c == '/' {
                enter_search_mode(app);
            } else if c == 'n' {
                go_to_next_search_result(app);
            } else if c == 'N' {
                go_to_previous_search_result(app);
            } else if c == 'f' {
                enter_filter_mode(app);
            } else if c == 'F' {
                clear_filters(app);
            } else if c == 's' {
                app.sort_by_column();
            } else if c == 'S' {
                app.show_stats = !app.show_stats;
            } else if c == 'b' {
                app.toggle_groupby_key();
            } else if c == 'a' {
                app.cycle_groupby_agg();
            } else if c == 'B' {
                toggle_groupby(app);
            } else if c == 'p' {
                enter_plot_pick(app);
            } else if c == '?' {
                app.show_help = !app.show_help;
            }
        },
        _ => {},
    }
}

/// A key while a query is typed.
fn search_key(app: &mut App, key: Key)
    requires
        old(app).mode == Mode::Search,
    ensures
        search_key_acts(*old(app), key, *final(app)),
        final(app).mode == next_mode(Mode::Search, key, old(app).has_match()),
        final(app).should_quit == old(app).should_quit,
        !is_bound(Mode::Search, key) ==> *final(app) == *old(app),
        old(app).wf() ==> final(app).wf(),
{
    match key {
        Key::Backspace => pop_char_from_search_query(app),
        Key::Enter => to_first_search_query_result(app),
        Key::Char(c) => push_char_to_search_query(app, c),
        Key::Esc => from_search_to_normal_mode(app),
        _ => {},
    }
}

/// A key while a filter is typed.
fn filter_key(app: &mut App, key: Key)
    requires
        old(app).mode == Mode::Filter,
    ensures
        filter_key_acts(*old(app), key, *final(app)),
        final(app).mode == next_mode(Mode::Filter, key, old(app).has_match()),
        final(app).should_quit == old(app).should_quit,
        !is_bound(Mode::Filter, key) ==> *final(app) == *old(app),
        old(app).wf() ==> final(app).wf(),
{
    match key {
        Key::Backspace => pop_char_from_filter_query(app),
        Key::Enter => to_normal_mode_with_filter(app),
        Key::Char(c) => push_char_to_filter_query(app, c),
        Key::Esc => from_filter_to_normal_mode(app),
        _ => {},
    }
}

/// A key while the x axis of a plot is chosen.
fn plot_pick_key(app: &mut App, key: Key)
    requires
        old(app).mode == Mode::PlotPickX,
    ensures
        plot_pick_key_acts(*old(app), key, *final(app)),
        final(app).mode == next_mode(Mode::PlotPickX, key, old(app).has_match()),
        final(app).should_quit == (old(app).should_quit || quits(Mode::PlotPickX, key)),
        moves_selection(Mode::PlotPickX, key) ==> *final(app) == (App {
            state: moved(old(app).state, key),
            ..*old(app)
        }),
        !is_bound(Mode::PlotPickX, key) ==> *final(app) == *old(app),
        old(app).wf() ==> final(app).wf(),
{
    match key {
        Key::Left => app.state.select_previous_column(),
        Key::Right => app.state.select_next_column(),
        Key::Enter => confirm_plot_pick(app),
        Key::Esc => cancel_plot_pick(app),
        Key::Char(c) => {
            if c == 'h' {
                app.state.select_previous_column();
            } else if c == 'l' {
                app.state.select_next_column();
            } else if c == 'q' {
                app.should_quit = true;
            }
        },
        _ => {},
    }
}

/// A key while a chart is shown.
fn plot_key(app: &mut App, key: Key)
    requires
        old(app).mode == Mode::Plot,
    ensures
        plot_key_acts(*old(app), key, *final(app)),
        final(app).mode == next_mode(Mode::Plot, key, old(app).has_match()),
        final(app).should_quit == (old(app).should_quit || quits(Mode::Plot, key)),
        !is_bound(Mode::Plot, key) ==> *final(app) == *old(app),
        old(app).wf() ==> final(app).wf(),
{
    match key {
        Key::Esc => close_plot(app),
        Key::Char(c) => {
            if c == 'p' {
                close_plot(app);
            } else if c == 't' {
                toggle_plot_type(app);
            } else if c == 'q' {
                app.should_quit = true;
            }
        },
        _ => {},
    }
}

/// Handles one key press: the key acts according to the mode, and the
/// selection is then brought back inside the view.
pub fn handle_key(app: &mut App, key: Key)
    ensures
        exists|acted: App| #[trigger]
            key_acts(*old(app), key, acted) && is_clamped(acted, *final(app)),
        final(app).mode == next_mode(old(app).mode, key, old(app).has_match()),
        final(app).should_quit == (old(app).should_quit || quits(old(app).mode, key)),
        final(app).selection_in_view(),
        moves_selection(old(app).mode, key) ==> *final(app) == (App {
            state: clamped_selection(
                moved(old(app).state, key),
                old(app).row_count(),
                old(app).headers@.len() as usize,
            ),
            ..*old(app)
        }),
        !is_bound(old(app).mode, key) ==> *final(app) == (App {
            state: clamped_selection(
                old(app).state,
                old(app).row_count(),
                old(app).headers@.len() as usize,
            ),
            ..*old(app)
        }),
        old(app).wf() ==> final(app).wf(),
{
    match app.mode {
        Mode::Normal => normal_key(app, key),
        Mode::Search => search_key(app, key),
        Mode::Filter => filter_key(app, key),
        Mode::PlotPickX => plot_pick_key(app, key),
        Mode::Plot => plot_key(app, key),
    }
    let ghost acted = *app;
    let rows = app.view.height();
    let columns = app.headers.len();
    app.state.clamp(rows, columns);
    assert(key_acts(*old(app), key, acted) && is_clamped(acted, *app));
}

} // verus!
