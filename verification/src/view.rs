//! The view pipeline: the view is the table with the rows that pass every
//! filter, in the order of the active sort. It is always derived from the
//! table, never from an earlier view.
use crate::frame::column_text;
use crate::frame::frame_height;
use crate::frame::frame_kind;
use crate::frame::frame_names;
use crate::frame::frame_numbers;
use crate::frame::frame_text;
use crate::frame::gather;
use crate::frame::gather_column;
use crate::frame::holds_rows_of;
use crate::frame::in_key_order;
use crate::frame::is_permutation;
use crate::frame::keep_rows;
use crate::frame::keeps_ties;
use crate::frame::row_may_precede;
use crate::frame::kept_rows;
use crate::frame::rows_tie;
use crate::frame::sort_order;
use crate::frame::sort_rows;
use crate::frame::sorts_without_fail;
use crate::model::App;
use crate::model::SortDirection;
use crate::text::cell_matches;
use crate::text::column_view;
use crate::text::text_matches;
use crate::text::texts_view;
use crate::text::to_lowercase;
use polars::prelude::DataFrame;
use vstd::prelude::*;

verus! {

/// A filter: a column and the text that its cells must contain.
pub type FilterSpec = (usize, Seq<char>);

/// What a request to sort by `column` makes of the active sort: the other
/// direction where that column is sorted already, ascending otherwise.
pub open spec fn toggled_sort(
    sort_column: Option<usize>,
    direction: SortDirection,
    column: usize,
) -> (Option<usize>, SortDirection) {
    if sort_column == Some(column) {
        (
            Some(column),
            match direction {
                SortDirection::Ascending => SortDirection::Descending,
                SortDirection::Descending => SortDirection::Ascending,
            },
        )
    } else {
        (Some(column), SortDirection::Ascending)
    }
}

/// A first request to sort by a column sorts it ascending unless it was
/// sorted ascending already; a second one gives the other direction; and
/// two requests in a row on a column that is sorted bring its direction
/// back: ascending stays ascending.
pub proof fn lemma_sort_toggle_twice(
    sort_column: Option<usize>,
    direction: SortDirection,
    column: usize,
)
    ensures
        toggled_sort(sort_column, direction, column).0 == Some(column),
        sort_column != Some(column) ==> toggled_sort(sort_column, direction, column).1
            == SortDirection::Ascending,
        ({
            let once = toggled_sort(sort_column, direction, column);
            let twice = toggled_sort(once.0, once.1, column);
            &&& twice.0 == Some(column)
            &&& once.1 != twice.1
            &&& sort_column == Some(column) ==> twice.1 == direction
            &&& sort_column != Some(column) ==> twice.1 == SortDirection::Descending
        }),
{
}

/// `after` is `before` sorted by the column called `name`: it holds the
/// rows of `before` in the engine's sort order, every row once, in the order
/// of the column's values, and, where the frame has more than one column,
/// with ties kept in place.
pub open spec fn is_sort_of(
    after: DataFrame,
    before: DataFrame,
    name: Seq<char>,
    descending: bool,
) -> bool {
    &&& holds_rows_of(after, before, sort_order(before, name, descending))
    &&& is_permutation(sort_order(before, name, descending), frame_height(before))
    &&& in_key_order(before, name, descending, sort_order(before, name, descending))
    &&& keeps_ties(after, before, name, sort_order(before, name, descending))
}

/// The order that two sorts in a row give: position `a` of the result holds
/// the row that the first sort took from `first[second[a]]`.
pub open spec fn composed_order(first: Seq<int>, second: Seq<int>) -> Seq<int> {
    Seq::new(second.len(), |a: int| first[second[a]])
}

/// Two sorts in a row by one column of a frame with more than one column,
/// whatever their directions, leave rows with equal values in the order
/// they had before the first sort: of two positions of the result that tie,
/// the earlier one holds the row that came earlier before the first sort.
/// (In a frame with a single column a row is its value, and the engine does
/// not keep values apart that compare equal.)
pub proof fn lemma_two_sorts_keep_ties(
    unsorted: DataFrame,
    once: DataFrame,
    twice: DataFrame,
    name: Seq<char>,
    first_descending: bool,
    second_descending: bool,
)
    requires
        frame_names(unsorted).len() > 1,
        is_sort_of(once, unsorted, name, first_descending),
        is_sort_of(twice, once, name, second_descending),
    ensures
        ({
            let first = sort_order(unsorted, name, first_descending);
            let second = sort_order(once, name, second_descending);
            let both = composed_order(first, second);
            &&& holds_rows_of(twice, unsorted, both)
            &&& is_permutation(both, frame_height(unsorted))
            &&& forall|a: int, b: int|
                0 <= a < b < frame_height(twice) && #[trigger] rows_tie(twice, name, a, b)
                    ==> both[a] < both[b]
        }),
{
    let first = sort_order(unsorted, name, first_descending);
    let second = sort_order(once, name, second_descending);
    let both = composed_order(first, second);
    assert forall|a: int, b: int|
        0 <= a < b < frame_height(twice) && #[trigger] rows_tie(twice, name, a, b) implies both[a]
        < both[b] by {
        assert(rows_tie(once, name, second[a], second[b]));
        assert(second[a] < second[b]);
        assert(0 <= second[a] < first.len());
        assert(0 <= second[b] < first.len());
        assert(rows_tie(once, name, second[a], second[b]) == rows_tie(
            unsorted,
            name,
            first[second[a]],
            first[second[b]],
        ));
    }
    assert forall|column: Seq<char>| #[trigger]
        frame_text(twice, column) == gather_column(frame_text(unsorted, column), both) by {
        assert(frame_text(twice, column) == gather_column(frame_text(once, column), second));
        assert(frame_text(once, column) == gather_column(frame_text(unsorted, column), first));
        match frame_text(unsorted, column) {
            Some(cells) => {
                assert(gather(gather(cells, first), second) =~= gather(cells, both));
            },
            None => {},
        }
    }
    assert forall|column: Seq<char>| #[trigger]
        frame_numbers(twice, column) == gather_column(frame_numbers(unsorted, column), both) by {
        assert(frame_numbers(twice, column) == gather_column(frame_numbers(once, column), second));
        assert(frame_numbers(once, column) == gather_column(
            frame_numbers(unsorted, column),
            first,
        ));
        match frame_numbers(unsorted, column) {
            Some(cells) => {
                assert(gather(gather(cells, first), second) =~= gather(cells, both));
            },
            None => {},
        }
    }
    assert forall|column: Seq<char>| #[trigger]
        frame_kind(twice, column) == frame_kind(unsorted, column) by {
        assert(frame_kind(twice, column) == frame_kind(once, column));
        assert(frame_kind(once, column) == frame_kind(unsorted, column));
    }
    assert forall|i: int, j: int| 0 <= i < j < both.len() implies #[trigger] both[i]
        != #[trigger] both[j] by {
        assert(second[i] != second[j]);
        if second[i] < second[j] {
            assert(first[second[i]] != first[second[j]]);
        } else {
            assert(first[second[j]] != first[second[i]]);
        }
    }
}

/// The order that leaves every one of `n` rows in its place.
pub open spec fn unmoved(n: nat) -> Seq<int> {
    Seq::new(n, |i: int| i)
}

/// A frame stands in the order of the column called `name`: each of its
/// rows may precede every later one.
pub open spec fn is_in_order(frame: DataFrame, name: Seq<char>, descending: bool) -> bool {
    in_key_order(frame, name, descending, unmoved(frame_height(frame)))
}

/// A sorted frame stands in the order of the column it was sorted by.
pub proof fn lemma_sorted_is_in_order(
    after: DataFrame,
    before: DataFrame,
    name: Seq<char>,
    descending: bool,
)
    requires
        is_sort_of(after, before, name, descending),
    ensures
        is_in_order(after, name, descending),
{
    let rows = sort_order(before, name, descending);
    let same = unmoved(frame_height(after));
    assert forall|a: int, b: int| 0 <= a < b < same.len() implies #[trigger] row_may_precede(
        after,
        name,
        descending,
        same[a],
        same[b],
    ) by {
        assert(row_may_precede(before, name, descending, rows[a], rows[b]));
        assert(row_may_precede(after, name, descending, a, b) == row_may_precede(
            before,
            name,
            descending,
            rows[a],
            rows[b],
        ));
    }
}

/// In a list of distinct positions below its length that only grows, no
/// entry lies below its own position.
pub proof fn lemma_growing_from_below(rows: Seq<int>, k: int)
    requires
        forall|i: int| 0 <= i < rows.len() ==> 0 <= #[trigger] rows[i] < rows.len(),
        forall|a: int, b: int| 0 <= a < b < rows.len() ==> #[trigger] rows[a] < #[trigger] rows[b],
        0 <= k < rows.len(),
    ensures
        rows[k] >= k,
    decreases k,
{
    if k > 0 {
        lemma_growing_from_below(rows, k - 1);
        assert(rows[k - 1] < rows[k]);
    }
}

/// In such a list no entry lies above its own position either.
pub proof fn lemma_growing_from_above(rows: Seq<int>, k: int)
    requires
        forall|i: int| 0 <= i < rows.len() ==> 0 <= #[trigger] rows[i] < rows.len(),
        forall|a: int, b: int| 0 <= a < b < rows.len() ==> #[trigger] rows[a] < #[trigger] rows[b],
        0 <= k < rows.len(),
    ensures
        rows[k] <= k,
    decreases rows.len() - k,
{
    if k + 1 < rows.len() {
        lemma_growing_from_above(rows, k + 1);
        assert(rows[k] < rows[k + 1]);
    }
}

/// An order that lists every row once and only grows leaves every row in
/// its place.
pub proof fn lemma_growing_order_is_unmoved(rows: Seq<int>, n: nat)
    requires
        is_permutation(rows, n),
        forall|a: int, b: int| 0 <= a < b < rows.len() ==> #[trigger] rows[a] < #[trigger] rows[b],
    ensures
        rows == unmoved(n),
{
    assert forall|k: int| 0 <= k < rows.len() implies rows[k] == k by {
        lemma_growing_from_below(rows, k);
        lemma_growing_from_above(rows, k);
    }
    assert(rows =~= unmoved(n));
}

/// Sorting there and back restores the view. A frame with more than one
/// column that stands in ascending order of a column, sorted by that column
/// in any direction and then ascending again, holds every row where it was:
/// the second sort brings back the order of the values, and ties never left
/// theirs.
pub proof fn lemma_sorting_back_restores(
    start: DataFrame,
    once: DataFrame,
    twice: DataFrame,
    name: Seq<char>,
    first_descending: bool,
)
    requires
        frame_names(start).len() > 1,
        is_in_order(start, name, false),
        is_sort_of(once, start, name, first_descending),
        is_sort_of(twice, once, name, false),
    ensures
        holds_rows_of(twice, start, unmoved(frame_height(start))),
{
    let first = sort_order(start, name, first_descending);
    let second = sort_order(once, name, false);
    let both = composed_order(first, second);
    let same = unmoved(frame_height(start));
    lemma_two_sorts_keep_ties(start, once, twice, name, first_descending, false);
    assert forall|a: int, b: int| 0 <= a < b < both.len() implies #[trigger] both[a]
        < #[trigger] both[b] by {
        assert(0 <= second[a] < first.len() && 0 <= second[b] < first.len());
        assert(row_may_precede(once, name, false, second[a], second[b]));
        assert(row_may_precede(once, name, false, second[a], second[b]) == row_may_precede(
            start,
            name,
            false,
            first[second[a]],
            first[second[b]],
        ));
        assert(both[a] != both[b]);
        if both[a] > both[b] {
            assert(row_may_precede(start, name, false, same[both[b]], same[both[a]]));
            assert(row_may_precede(once, name, false, second[b], second[a]) == row_may_precede(
                start,
                name,
                false,
                first[second[b]],
                first[second[a]],
            ));
            assert(row_may_precede(twice, name, false, a, b) == row_may_precede(
                once,
                name,
                false,
                second[a],
                second[b],
            ));
            assert(row_may_precede(twice, name, false, b, a) == row_may_precede(
                once,
                name,
                false,
                second[b],
                second[a],
            ));
            assert(rows_tie(twice, name, a, b));
        }
    }
    lemma_growing_order_is_unmoved(both, frame_height(start));
}

/// Narrows a mask by one filter: a row stays set where its cell contains
/// the pattern, compared without regard to case. A row that the column does
/// not have counts as a null cell.
pub fn narrow_mask(mask: &mut Vec<bool>, cells: &Vec<Option<String>>, pattern: &str)
    ensures
        final(mask)@.len() == old(mask)@.len(),
        forall|r: int|
            0 <= r < old(mask)@.len() ==> #[trigger] final(mask)@[r] == (old(mask)@[r] && r
                < cells@.len() && cell_matches(column_view(cells@)[r], pattern@)),
{
    let lower = to_lowercase(pattern);
    let mut r: usize = 0;
    while r < mask.len()
        invariant
            r <= mask@.len(),
            mask@.len() == old(mask)@.len(),
            lower@ == crate::text::lowercase(pattern@),
            forall|k: int|
                0 <= k < r ==> #[trigger] mask@[k] == (old(mask)@[k] && k < cells@.len()
                    && cell_matches(column_view(cells@)[k], pattern@)),
            forall|k: int| r <= k < mask@.len() ==> #[trigger] mask@[k] == old(mask)@[k],
        decreases mask@.len() - r,
    {
        if mask[r] {
            let found = if r < cells.len() {
                match &cells[r] {
                    Some(text) => text_matches(text.as_str(), lower.as_str()),
                    None => false,
                }
            } else {
                false
            };
            mask.set(r, found);
        }
        r += 1;
    }
}

/// A mask of `n` rows, all set.
pub fn full_mask(n: usize) -> (mask: Vec<bool>)
    ensures
        mask@.len() == n,
        forall|r: int| 0 <= r < n ==> mask@[r],
{
    let mut mask: Vec<bool> = Vec::new();
    let mut i: usize = 0;
    while i < n
        invariant
            i <= n,
            mask@.len() == i,
            forall|r: int| 0 <= r < i ==> mask@[r],
        decreases n - i,
    {
        mask.push(true);
        i += 1;
    }
    mask
}

/// The filters in force: the committed ones in their order, then the text
/// being typed, if any, on the selected column.
pub open spec fn active_filters_of(
    committed: Seq<(usize, String)>,
    typed: Seq<char>,
    column: usize,
) -> Seq<FilterSpec> {
    let listed = Seq::new(committed.len(), |i: int| (committed[i].0, committed[i].1@));
    if typed.len() > 0 {
        listed.push((column, typed))
    } else {
        listed
    }
}

/// The text of the table column that a filter tests; `None` where the
/// filter names no column or the column has no text.
pub open spec fn filter_cells_of(table: DataFrame, headers: Seq<String>, filter: FilterSpec)
    -> Option<Seq<Option<Seq<char>>>> {
    if filter.0 < headers.len() {
        frame_text(table, headers[filter.0 as int]@)
    } else {
        None
    }
}

/// Each of the first `upto` filters has a column to test.
pub open spec fn filters_resolve_of(
    table: DataFrame,
    headers: Seq<String>,
    active: Seq<FilterSpec>,
    upto: int,
) -> bool {
    forall|k: int| 0 <= k < upto ==> filter_cells_of(table, headers, #[trigger] active[k]) is Some
}

/// Row `row` of the table passes the first `upto` filters.
pub open spec fn row_passes_of(
    table: DataFrame,
    headers: Seq<String>,
    active: Seq<FilterSpec>,
    row: int,
    upto: int,
) -> bool {
    forall|k: int|
        0 <= k < upto ==> cell_matches(
            filter_cells_of(table, headers, #[trigger] active[k])->Some_0[row],
            active[k].1,
        )
}

/// For each row of the table, whether it passes every filter.
pub open spec fn filter_mask_of(table: DataFrame, headers: Seq<String>, active: Seq<FilterSpec>)
    -> Seq<bool> {
    Seq::new(
        frame_height(table),
        |row: int| row_passes_of(table, headers, active, row, active.len() as int),
    )
}

/// `filtered` is the table narrowed by the filters: the rows that pass all
/// of them, in table order. With no filter, or with one that has no column
/// to test, it is the whole table.
pub open spec fn is_filtered_table_of(
    table: DataFrame,
    headers: Seq<String>,
    active: Seq<FilterSpec>,
    filtered: DataFrame,
) -> bool {
    if active.len() == 0 || !filters_resolve_of(table, headers, active, active.len() as int) {
        filtered == table
    } else {
        holds_rows_of(filtered, table, kept_rows(filter_mask_of(table, headers, active)))
    }
}

/// `view` is `filtered` in the order of the sort. With no sort, or with
/// one by a column that does not exist, it is `filtered` itself. By a column
/// of numbers or of text the engine sorts without fail, and the view is the
/// sorted frame; by any other column the engine may refuse, and the view is
/// then `filtered` itself.
pub open spec fn is_ordered_view_of(
    headers: Seq<String>,
    sort_column: Option<usize>,
    direction: SortDirection,
    filtered: DataFrame,
    view: DataFrame,
) -> bool {
    match sort_column {
        Some(c) => if c < headers.len() {
            let sorted = is_sort_of(
                view,
                filtered,
                headers[c as int]@,
                direction == SortDirection::Descending,
            );
            if sorts_without_fail(filtered, headers[c as int]@) {
                sorted
            } else {
                sorted || view == filtered
            }
        } else {
            view == filtered
        },
        None => view == filtered,
    }
}

/// `view` is what the pipeline derives from the table, the filters and the
/// sort.
pub open spec fn is_pipeline_view_of(
    table: DataFrame,
    headers: Seq<String>,
    active: Seq<FilterSpec>,
    sort_column: Option<usize>,
    direction: SortDirection,
    view: DataFrame,
) -> bool {
    exists|filtered: DataFrame| #[trigger]
        is_filtered_table_of(table, headers, active, filtered) && is_ordered_view_of(
            headers,
            sort_column,
            direction,
            filtered,
            view,
        )
}

/// What the pipeline keeps of the table. The view has the columns of the
/// table. With filters that all have a column to test it has as many rows
/// as pass them all: none where no row passes, which is no failure. With no
/// filter it has every row of the table, sorted or not.
pub proof fn lemma_pipeline_view_rows(
    table: DataFrame,
    headers: Seq<String>,
    active: Seq<FilterSpec>,
    sort_column: Option<usize>,
    direction: SortDirection,
    view: DataFrame,
)
    requires
        is_pipeline_view_of(table, headers, active, sort_column, direction, view),
    ensures
        frame_names(view) == frame_names(table),
        active.len() == 0 ==> frame_height(view) == frame_height(table),
        active.len() > 0 && filters_resolve_of(table, headers, active, active.len() as int) ==> {
            &&& frame_height(view) == kept_rows(filter_mask_of(table, headers, active)).len()
            &&& frame_height(view) <= frame_height(table)
            &&& (forall|row: int|
                0 <= row < frame_height(table) ==> !#[trigger] row_passes_of(
                    table,
                    headers,
                    active,
                    row,
                    active.len() as int,
                )) ==> frame_height(view) == 0
        },
{
    let filtered = choose|filtered: DataFrame| #[trigger]
        is_filtered_table_of(table, headers, active, filtered) && is_ordered_view_of(
            headers,
            sort_column,
            direction,
            filtered,
            view,
        );
    let mask = filter_mask_of(table, headers, active);
    crate::frame::lemma_kept_rows(mask);
    if forall|row: int|
        0 <= row < frame_height(table) ==> !#[trigger] row_passes_of(
            table,
            headers,
            active,
            row,
            active.len() as int,
        ) {
        assert forall|r: int| 0 <= r < mask.len() implies !#[trigger] mask[r] by {
            assert(!row_passes_of(table, headers, active, r, active.len() as int));
        }
    }
}

/// What deriving the view again does. Outside a grouping the view becomes
/// what the pipeline derives from the table, the filters in force and the
/// active sort; while a grouping is shown it stays. A query that is active
/// is searched again in the view, and without one results and cursor stay.
/// Nothing else changes.
pub open spec fn derived_view(before: App, after: App) -> bool {
    &&& before.groupby_active ==> after.view == before.view
    &&& !before.groupby_active ==> {
        &&& before.is_pipeline_view(after.view)
        &&& frame_names(after.view) == frame_names(before.df)
    }
    &&& after.search_query@.len() > 0 ==> after.search_is_current() && after.search_cursor == 0
    &&& after.search_query@.len() == 0 ==> after.search_results == before.search_results
        && after.search_cursor == before.search_cursor
    &&& after == (App {
        view: after.view,
        search_results: after.search_results,
        search_cursor: after.search_cursor,
        ..before
    })
}

/// What sorting by the selected column does. Where that column does not
/// exist, nothing. Else column and direction of the sort are toggled, the
/// view is the old view in the order of the new sort, a query that is
/// active is searched again, and nothing else changes.
pub open spec fn sorted_by_selected(before: App, after: App) -> bool {
    let column = before.state.column_or_first();
    if column >= before.headers@.len() {
        after == before
    } else {
        let toggled = toggled_sort(before.sort_column, before.sort_direction, column);
        &&& after.sort_column == toggled.0
        &&& after.sort_direction == toggled.1
        &&& is_ordered_view_of(before.headers@, toggled.0, toggled.1, before.view, after.view)
        &&& after.search_query@.len() > 0 ==> after.search_is_current() && after.search_cursor
            == 0
        &&& after.search_query@.len() == 0 ==> after.search_results == before.search_results
            && after.search_cursor == before.search_cursor
        &&& after == (App {
            view: after.view,
            sort_column: after.sort_column,
            sort_direction: after.sort_direction,
            search_results: after.search_results,
            search_cursor: after.search_cursor,
            ..before
        })
    }
}

impl App {
    /// The filters in force: the committed ones in their order, then the
    /// text being typed, if any, on the selected column.
    pub open spec fn active_filters(self) -> Seq<FilterSpec> {
        active_filters_of(self.filters@, self.filter_input@, self.state.column_or_first())
    }

    /// The text of the table column that a filter tests.
    pub open spec fn filter_cells(self, filter: FilterSpec) -> Option<Seq<Option<Seq<char>>>> {
        filter_cells_of(self.df, self.headers@, filter)
    }

    /// Each of the first `upto` filters in force has a column to test.
    pub open spec fn filters_resolve(self, upto: int) -> bool {
        filters_resolve_of(self.df, self.headers@, self.active_filters(), upto)
    }

    /// Row `row` of the table passes the first `upto` filters in force.
    pub open spec fn row_passes(self, row: int, upto: int) -> bool {
        row_passes_of(self.df, self.headers@, self.active_filters(), row, upto)
    }

    /// For each row of the table, whether it passes every filter in force.
    pub open spec fn filter_mask(self) -> Seq<bool> {
        filter_mask_of(self.df, self.headers@, self.active_filters())
    }

    /// `filtered` is the table narrowed by the filters in force.
    pub open spec fn is_filtered_table(self, filtered: DataFrame) -> bool {
        is_filtered_table_of(self.df, self.headers@, self.active_filters(), filtered)
    }

    /// `view` is `filtered` in the order of the active sort.
    pub open spec fn is_ordered_view(self, filtered: DataFrame, view: DataFrame) -> bool {
        is_ordered_view_of(self.headers@, self.sort_column, self.sort_direction, filtered, view)
    }

    /// `view` is what the pipeline derives from the table, the filters in
    /// force and the active sort.
    pub open spec fn is_pipeline_view(self, view: DataFrame) -> bool {
        is_pipeline_view_of(
            self.df,
            self.headers@,
            self.active_filters(),
            self.sort_column,
            self.sort_direction,
            view,
        )
    }

    /// Narrows `mask` by one filter on the table; says whether the filter
    /// had a column to test.
    fn apply_filter(&self, mask: &mut Vec<bool>, column: usize, pattern: &str) -> (ok: bool)
        requires
            old(mask)@.len() == frame_height(self.df),
        ensures
            final(mask)@.len() == old(mask)@.len(),
            ok == self.filter_cells((column, pattern@)) is Some,
            ok ==> self.filter_cells((column, pattern@))->Some_0.len() == old(mask)@.len(),
            ok ==> forall|r: int|
                0 <= r < old(mask)@.len() ==> #[trigger] final(mask)@[r] == (old(mask)@[r]
                    && cell_matches(self.filter_cells((column, pattern@))->Some_0[r], pattern@)),
    {
        if column >= self.headers.len() {
            return false;
        }
        match column_text(&self.df, self.headers[column].as_str()) {
            Some(cells) => {
                narrow_mask(mask, &cells, pattern);
                true
            },
            None => false,
        }
    }

    /// Narrows the table by the filters in force.
    pub fn filtered_table(&self) -> (filtered: DataFrame)
        ensures
            self.is_filtered_table(filtered),
    {
        let committed = self.filters.len();
        let typing = !self.filter_input.as_str().is_empty();
        if committed == 0 && !typing {
            return self.df.clone();
        }
        let ghost active = self.active_filters();
        let mut mask = full_mask(self.df.height());
        let mut k: usize = 0;
        while k < committed
            invariant
                k <= committed,
                committed == self.filters@.len(),
                active == self.active_filters(),
                active.len() >= committed,
                mask@.len() == frame_height(self.df),
                self.filters_resolve(k as int),
                forall|r: int|
                    0 <= r < mask@.len() ==> mask@[r] == self.row_passes(r, k as int),
            decreases committed - k,
        {
            let ghost before = mask@;
            assert(active[k as int] == (self.filters@[k as int].0, self.filters@[k as int].1@));
            let ok = self.apply_filter(&mut mask, self.filters[k].0, self.filters[k].1.as_str());
            if !ok {
                assert(!self.filters_resolve(active.len() as int));
                return self.df.clone();
            }
            assert forall|r: int| 0 <= r < mask@.len() implies mask@[r] == self.row_passes(
                r,
                k + 1,
            ) by {
                assert(before[r] == self.row_passes(r, k as int));
                assert(mask@[r] == (before[r] && cell_matches(
                    self.filter_cells(active[k as int])->Some_0[r],
                    active[k as int].1,
                )));
            }
            k += 1;
        }
        if typing {
            let ghost before = mask@;
            assert(active[committed as int] == (
                self.state.column_or_first(),
                self.filter_input@,
            ));
            let ok = self.apply_filter(
                &mut mask,
                self.state.current_column(),
                self.filter_input.as_str(),
            );
            if !ok {
                assert(!self.filters_resolve(active.len() as int));
                return self.df.clone();
            }
            assert forall|r: int| 0 <= r < mask@.len() implies mask@[r] == self.row_passes(
                r,
                committed + 1,
            ) by {
                assert(before[r] == self.row_passes(r, committed as int));
                assert(mask@[r] == (before[r] && cell_matches(
                    self.filter_cells(active[committed as int])->Some_0[r],
                    active[committed as int].1,
                )));
            }
        }
        assert(mask@ =~= self.filter_mask());
        match keep_rows(&self.df, &mask) {
            Some(kept) => kept,
            None => self.df.clone(),
        }
    }

    /// Puts a frame in the order of the active sort: sorted by the sort
    /// column where the engine sorts by it, as it came otherwise.
    pub fn ordered(&self, filtered: DataFrame) -> (view: DataFrame)
        ensures
            self.is_ordered_view(filtered, view),
            frame_names(view) == frame_names(filtered),
            frame_height(view) == frame_height(filtered),
    {
        match self.sort_column {
            Some(c) => {
                if c < self.headers.len() {
                    let descending = match self.sort_direction {
                        SortDirection::Descending => true,
                        SortDirection::Ascending => false,
                    };
                    match sort_rows(&filtered, self.headers[c].as_str(), descending) {
                        Some(sorted) => sorted,
                        None => filtered,
                    }
                } else {
                    filtered
                }
            },
            None => filtered,
        }
    }

    /// Derives the view again from the table, the filters in force and the
    /// active sort, and searches it again where a query is active. While a
    /// grouping is shown the grouped view stays as it is.
    pub fn update_filter(&mut self)
        ensures
            derived_view(*old(self), *final(self)),
            old(self).wf() ==> final(self).wf(),
    {
        if !self.groupby_active {
            let filtered = self.filtered_table();
            let view = self.ordered(filtered);
            assert(self.is_filtered_table(filtered) && self.is_ordered_view(filtered, view));
            self.view = view;
        }
        if !self.search_query.as_str().is_empty() {
            self.update_search();
        }
    }

    /// Sorts the view by the selected column: ascending, or the other
    /// direction where that column is sorted already. By a column of
    /// numbers or of text the engine sorts without fail; where it refuses to
    /// sort by another column the view stays as it is. Nothing happens
    /// where the selected column does not exist.
    pub fn sort_by_column(&mut self)
        ensures
            sorted_by_selected(*old(self), *final(self)),
            old(self).wf() ==> final(self).wf(),
    {
        let current_column = self.state.current_column();
        if current_column >= self.headers.len() {
            return ;
        }
        if self.sort_column == Some(current_column) {
            self.sort_direction =
            match self.sort_direction {
                SortDirection::Ascending => SortDirection::Descending,
                SortDirection::Descending => SortDirection::Ascending,
            };
        } else {
            self.sort_column = Some(current_column);
            self.sort_direction = SortDirection::Ascending;
        }
        let descending = match self.sort_direction {
            SortDirection::Descending => true,
            SortDirection::Ascending => false,
        };
        match sort_rows(&self.view, self.headers[current_column].as_str(), descending) {
            Some(sorted) => {
                self.view = sorted;
            },
            None => {},
        }
        if !self.search_query.as_str().is_empty() {
            self.update_search();
        }
    }
}

} // verus!
