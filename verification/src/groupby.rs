//! Grouping in two phases. First the keys and the aggregations are chosen,
//! column by column; then the view is replaced by one row for each group,
//! until the grouping is cleared again.
use crate::frame::column_names;
use crate::frame::frame_names;
use crate::layout::holds_column;
use crate::model::default_widths;
use crate::model::AggFunc;
use crate::model::App;
use crate::model::DEFAULT_COLUMN_WIDTH;
use crate::query::aggregated;
use crate::query::column_expr;
use crate::query::grouped_by;
use crate::query::lazy_query;
use crate::query::renamed;
use crate::query::sorted_by;
use crate::selection::Selection;
use crate::text::texts_view;
use polars::prelude::DataFrame;
use polars::prelude::Expr;
use std::collections::HashMap;
use vstd::prelude::*;
use vstd::string::StringExecFns;

verus! {

/// The aggregation that follows `current` when a column is cycled: none,
/// sum, mean, count, min, max, and none again.
pub open spec fn next_agg(current: Option<AggFunc>) -> Option<AggFunc> {
    match current {
        None => Some(AggFunc::Sum),
        Some(AggFunc::Sum) => Some(AggFunc::Mean),
        Some(AggFunc::Mean) => Some(AggFunc::Count),
        Some(AggFunc::Count) => Some(AggFunc::Min),
        Some(AggFunc::Min) => Some(AggFunc::Max),
        Some(AggFunc::Max) => None,
    }
}

/// Cycling a column six times passes through every aggregation once and
/// ends where it began.
pub proof fn lemma_agg_cycle(current: Option<AggFunc>)
    ensures
        next_agg(next_agg(next_agg(next_agg(next_agg(next_agg(current)))))) == current,
        next_agg(None) == Some(AggFunc::Sum),
        next_agg(next_agg(next_agg(next_agg(next_agg(None))))) == Some(AggFunc::Max),
{
}

/// The word that an aggregation adds to the name of its output column.
pub open spec fn agg_suffix(func: AggFunc) -> Seq<char> {
    match func {
        AggFunc::Sum => "sum"@,
        AggFunc::Mean => "mean"@,
        AggFunc::Count => "count"@,
        AggFunc::Min => "min"@,
        AggFunc::Max => "max"@,
    }
}

/// The name of the column that holds an aggregate: the name of the column
/// it is taken of, an underscore, and the word for the aggregation.
pub open spec fn output_name_of(column: Seq<char>, func: AggFunc) -> Seq<char> {
    column + "_"@ + agg_suffix(func)
}

/// Names the column that holds an aggregate.
pub fn output_name(column: &str, func: AggFunc) -> (name: String)
    ensures
        name@ == output_name_of(column@, func),
{
    let mut name = String::from_str(column);
    name.append("_");
    match func {
        AggFunc::Sum => name.append("sum"),
        AggFunc::Mean => name.append("mean"),
        AggFunc::Count => name.append("count"),
        AggFunc::Min => name.append("min"),
        AggFunc::Max => name.append("max"),
    }
    name
}

/// `at` is the first position of `column` in `columns`.
pub open spec fn is_first_position(columns: Seq<usize>, column: usize, at: int) -> bool {
    &&& 0 <= at < columns.len()
    &&& columns[at] == column
    &&& forall|k: int| 0 <= k < at ==> columns[k] != column
}

/// Finds the first position of a column in a list.
pub fn first_position(columns: &Vec<usize>, column: usize) -> (at: Option<usize>)
    ensures
        match at {
            Some(i) => is_first_position(columns@, column, i as int),
            None => !columns@.contains(column),
        },
{
    let mut i: usize = 0;
    while i < columns.len()
        invariant
            i <= columns@.len(),
            forall|k: int| 0 <= k < i ==> columns@[k] != column,
        decreases columns@.len() - i,
    {
        if columns[i] == column {
            return Some(i);
        }
        i += 1;
    }
    None
}

/// The aggregations chosen on the first `n` columns, by column.
pub open spec fn aggregates_below(aggs: Map<usize, AggFunc>, n: int) -> Seq<(usize, AggFunc)>
    decreases n,
{
    if n <= 0 {
        Seq::empty()
    } else if aggs.contains_key((n - 1) as usize) {
        aggregates_below(aggs, n - 1).push(((n - 1) as usize, aggs[(n - 1) as usize]))
    } else {
        aggregates_below(aggs, n - 1)
    }
}

/// Every aggregation listed for the first `n` columns is on one of them.
pub proof fn lemma_aggregates_below(aggs: Map<usize, AggFunc>, n: int)
    requires
        0 <= n <= usize::MAX,
    ensures
        forall|i: int|
            0 <= i < aggregates_below(aggs, n).len() ==> {
                &&& (#[trigger] aggregates_below(aggs, n)[i]).0 < n
                &&& aggs.contains_key(aggregates_below(aggs, n)[i].0)
                &&& aggs[aggregates_below(aggs, n)[i].0] == aggregates_below(aggs, n)[i].1
            },
    decreases n,
{
    if n > 0 {
        lemma_aggregates_below(aggs, n - 1);
        let prev = aggregates_below(aggs, n - 1);
        let cur = aggregates_below(aggs, n);
        assert forall|i: int| 0 <= i < cur.len() implies {
            &&& (#[trigger] cur[i]).0 < n
            &&& aggs.contains_key(cur[i].0)
            &&& aggs[cur[i].0] == cur[i].1
        } by {
            if i < prev.len() {
                assert(cur[i] == prev[i]);
            }
        }
    }
}

/// What is left of a list without its entry at `at`: every entry that was
/// there, in the same order, and none twice that was there once.
pub proof fn lemma_remove_keeps(columns: Seq<usize>, at: int)
    requires
        0 <= at < columns.len(),
    ensures
        forall|k: usize| columns.remove(at).contains(k) ==> columns.contains(k),
        (forall|i: int, j: int| 0 <= i < j < columns.len() ==> columns[i] != columns[j])
            ==> (forall|i: int, j: int|
            0 <= i < j < columns.remove(at).len() ==> columns.remove(at)[i] != columns.remove(
                at,
            )[j]),
{
    let rest = columns.remove(at);
    assert forall|k: usize| rest.contains(k) implies columns.contains(k) by {
        let i = choose|i: int| 0 <= i < rest.len() && rest[i] == k;
        if i < at {
            assert(columns[i] == k);
        } else {
            assert(columns[i + 1] == k);
        }
    }
    if forall|i: int, j: int| 0 <= i < j < columns.len() ==> columns[i] != columns[j] {
        assert forall|i: int, j: int| 0 <= i < j < rest.len() implies rest[i] != rest[j] by {
            let a = if i < at {
                i
            } else {
                i + 1
            };
            let b = if j < at {
                j
            } else {
                j + 1
            };
            assert(rest[i] == columns[a] && rest[j] == columns[b]);
            assert(a < b);
        }
    }
}

/// What toggling the selected column as a grouping key does: a column that
/// is a key leaves the keys at its first position; another one joins them
/// and loses the aggregation chosen on it. Nothing else changes.
pub open spec fn toggled_key(before: App, after: App) -> bool {
    let column = before.state.column_or_first();
    &&& if before.groupby_keys@.contains(column) {
        &&& exists|at: int|
            is_first_position(before.groupby_keys@, column, at) && after.groupby_keys@
                == before.groupby_keys@.remove(at)
        &&& after.groupby_aggs@ == before.groupby_aggs@
    } else {
        &&& after.groupby_keys@ == before.groupby_keys@.push(column)
        &&& after.groupby_aggs@ == before.groupby_aggs@.remove(column)
    }
    &&& after == (App {
        groupby_keys: after.groupby_keys,
        groupby_aggs: after.groupby_aggs,
        ..before
    })
}

/// What cycling the aggregation of the selected column does: a column that
/// is a grouping key leaves the keys at its first position and gets the sum;
/// another one moves to its next aggregation, or to none after the last.
/// Nothing else changes.
pub open spec fn cycled_aggregation(before: App, after: App) -> bool {
    let column = before.state.column_or_first();
    &&& if before.groupby_keys@.contains(column) {
        &&& exists|at: int|
            is_first_position(before.groupby_keys@, column, at) && after.groupby_keys@
                == before.groupby_keys@.remove(at)
        &&& after.groupby_aggs@ == before.groupby_aggs@.insert(column, AggFunc::Sum)
    } else {
        &&& after.groupby_keys@ == before.groupby_keys@
        &&& after.groupby_aggs@ == (match next_agg(before.groupby_aggs@.get(column)) {
            Some(func) => before.groupby_aggs@.insert(column, func),
            None => before.groupby_aggs@.remove(column),
        })
    }
    &&& after == (App {
        groupby_keys: after.groupby_keys,
        groupby_aggs: after.groupby_aggs,
        ..before
    })
}

/// What running a grouping does. Where none can be run, nothing. Else the
/// engine is asked for the view grouped as `grouping_request` says, and
/// either the state stays as it is, or a frame that carries the names asked
/// for, keys first and then one `<column>_<function>` for each aggregate,
/// is shown in place of the view.
pub open spec fn applied_grouping(before: App, after: App) -> bool {
    &&& !before.grouping_is_ready() ==> after == before
    &&& after == before || {
        &&& after.shows_grouping_of(before)
        &&& texts_view(after.headers@) == before.grouped_headers()
        &&& after.headers@.len() == before.groupby_keys@.len()
            + before.planned_aggregates().len()
    }
}

/// What ending a grouping does. The headers and widths that were kept aside
/// come back (where no grouping was shown, headers and widths stay); keys
/// and aggregations are dropped and the sort is given up; the view is what
/// the pipeline derives from the table and its filters; a query that is
/// active stays and its results are those of that view, and without a query
/// there are no results. Nothing else changes.
pub open spec fn cleared_grouping(before: App, after: App) -> bool {
    &&& !after.groupby_active
    &&& after.groupby_keys@.len() == 0
    &&& after.groupby_aggs@.len() == 0
    &&& after.sort_column is None
    &&& after.search_query == before.search_query
    &&& after.search_cursor == 0
    &&& before.search_query@.len() > 0 ==> after.search_is_current()
    &&& before.search_query@.len() == 0 ==> after.search_results@.len() == 0
    &&& before.groupby_active ==> {
        &&& after.headers == before.saved_headers
        &&& after.column_widths == before.saved_column_widths
        &&& after.saved_headers@.len() == 0
        &&& after.saved_column_widths@.len() == 0
    }
    &&& !before.groupby_active ==> {
        &&& after.headers == before.headers
        &&& after.column_widths == before.column_widths
        &&& after.saved_headers == before.saved_headers
        &&& after.saved_column_widths == before.saved_column_widths
    }
    &&& after.is_pipeline_view(after.view)
    &&& after == (App {
        view: after.view,
        headers: after.headers,
        column_widths: after.column_widths,
        saved_headers: after.saved_headers,
        saved_column_widths: after.saved_column_widths,
        groupby_keys: after.groupby_keys,
        groupby_aggs: after.groupby_aggs,
        groupby_active: false,
        sort_column: None,
        search_results: after.search_results,
        search_cursor: 0,
        ..before
    })
}

/// The names of the key columns of a grouped view: the names of the keys,
/// in the order the keys were chosen.
pub open spec fn key_names_of(headers: Seq<String>, keys: Seq<usize>) -> Seq<Seq<char>> {
    Seq::new(keys.len(), |i: int| headers[keys[i] as int]@)
}

/// The names of the aggregate columns of a grouped view: for each planned
/// aggregate the name of its column, an underscore and the word for the
/// aggregation.
pub open spec fn output_names_of(headers: Seq<String>, plan: Seq<(usize, AggFunc)>) -> Seq<
    Seq<char>,
> {
    Seq::new(plan.len(), |i: int| output_name_of(headers[plan[i].0 as int]@, plan[i].1))
}

/// The names of the columns of a grouped view: the keys first, then the
/// aggregates.
pub open spec fn grouped_names_of(
    headers: Seq<String>,
    keys: Seq<usize>,
    plan: Seq<(usize, AggFunc)>,
) -> Seq<Seq<char>> {
    key_names_of(headers, keys) + output_names_of(headers, plan)
}

/// Do two lists hold the same texts in the same order?
pub fn same_texts(left: &Vec<String>, right: &Vec<String>) -> (same: bool)
    ensures
        same == (texts_view(left@) == texts_view(right@)),
{
    if left.len() != right.len() {
        assert(texts_view(left@).len() != texts_view(right@).len());
        return false;
    }
    let mut i: usize = 0;
    while i < left.len()
        invariant
            i <= left@.len(),
            left@.len() == right@.len(),
            forall|k: int| 0 <= k < i ==> (#[trigger] left@[k])@ == right@[k]@,
        decreases left@.len() - i,
    {
        if left[i] != right[i] {
            assert(texts_view(left@)[i as int] != texts_view(right@)[i as int]);
            return false;
        }
        i += 1;
    }
    assert(texts_view(left@) =~= texts_view(right@));
    true
}

/// One aggregate that a grouping asks for: the column it is taken of, the
/// aggregation, and the name of the column that holds it.
pub struct AggregateRequest {
    pub column: String,
    pub func: AggFunc,
    pub output: String,
}

/// What a grouping asks of the engine: the frame to be grouped, the names
/// of the key columns, and the aggregates.
pub struct GroupingRequest {
    pub frame: DataFrame,
    pub keys: Vec<String>,
    pub aggregates: Vec<AggregateRequest>,
}

/// The names of the columns that a request asks for: the keys, then the
/// output of each aggregate.
pub open spec fn requested_names(request: GroupingRequest) -> Seq<Seq<char>> {
    texts_view(request.keys@) + Seq::new(
        request.aggregates@.len(),
        |i: int| request.aggregates@[i].output@,
    )
}

/// `request` is what the viewer asks for when it groups: the view is
/// grouped, by the columns chosen as keys in the order they were chosen,
/// with one aggregate for each aggregation chosen on a column of the view,
/// in column order, each under the name `<column>_<function>`.
pub open spec fn is_request_of(request: GroupingRequest, app: App) -> bool {
    &&& request.frame == app.view
    &&& texts_view(request.keys@) == key_names_of(app.headers@, app.groupby_keys@)
    &&& request.aggregates@.len() == app.planned_aggregates().len()
    &&& forall|i: int|
        0 <= i < request.aggregates@.len() ==> {
            let planned = app.planned_aggregates()[i];
            &&& (#[trigger] request.aggregates@[i]).column@ == app.headers@[planned.0 as int]@
            &&& request.aggregates@[i].func == planned.1
            &&& request.aggregates@[i].output@ == output_name_of(
                app.headers@[planned.0 as int]@,
                planned.1,
            )
        }
}

/// Lists the names that a request asks for.
pub fn names_asked(request: &GroupingRequest) -> (asked: Vec<String>)
    ensures
        texts_view(asked@) == requested_names(*request),
{
    let mut asked: Vec<String> = Vec::new();
    let mut i: usize = 0;
    while i < request.keys.len()
        invariant
            i <= request.keys@.len(),
            asked@.len() == i,
            forall|k: int| 0 <= k < i ==> (#[trigger] asked@[k])@ == request.keys@[k]@,
        decreases request.keys@.len() - i,
    {
        asked.push(request.keys[i].clone());
        i += 1;
    }
    let key_count = request.keys.len();
    let mut j: usize = 0;
    while j < request.aggregates.len()
        invariant
            j <= request.aggregates@.len(),
            key_count == request.keys@.len(),
            asked@.len() == key_count + j,
            forall|k: int| 0 <= k < key_count ==> (#[trigger] asked@[k])@ == request.keys@[k]@,
            forall|k: int|
                0 <= k < j ==> (#[trigger] asked@[key_count + k])@
                    == request.aggregates@[k].output@,
        decreases request.aggregates@.len() - j,
    {
        let ghost before = asked@;
        asked.push(request.aggregates[j].output.clone());
        assert forall|k: int| 0 <= k < key_count implies (#[trigger] asked@[k])@
            == request.keys@[k]@ by {
            assert(asked@[k] == before[k]);
        }
        assert forall|k: int| 0 <= k < j + 1 implies (#[trigger] asked@[key_count + k])@
            == request.aggregates@[k].output@ by {
            if k < j {
                assert(asked@[key_count + k] == before[key_count + k]);
            }
        }
        j += 1;
    }
    assert(texts_view(asked@) =~= requested_names(*request)) by {
        let all = requested_names(*request);
        assert(all.len() == asked@.len());
        assert forall|k: int| 0 <= k < asked@.len() implies texts_view(asked@)[k] == all[k] by {
            if k >= key_count {
                assert(asked@[key_count + (k - key_count)]@ == request.aggregates@[k
                    - key_count].output@);
            }
        }
    }
    asked
}

/// Takes a frame that the engine made of a grouping only if its columns
/// carry the names that were asked for.
pub fn accept_grouped(frame: DataFrame, asked: &Vec<String>) -> (outcome: Option<DataFrame>)
    ensures
        outcome == (if frame_names(frame) == texts_view(asked@) {
            Some(frame)
        } else {
            None
        }),
{
    let names = column_names(&frame);
    if same_texts(&names, asked) {
        Some(frame)
    } else {
        None
    }
}

/// The expression of one aggregate: the column, reduced by the aggregation,
/// under the output name. An expression is a value of the engine, of which
/// nothing can be said here.
pub fn aggregate_expr(aggregate: &AggregateRequest) -> Expr {
    let source = column_expr(aggregate.column.as_str());
    let reduced = match aggregate.func {
        AggFunc::Sum => source.sum(),
        AggFunc::Mean => source.mean(),
        AggFunc::Count => source.count(),
        AggFunc::Min => source.min(),
        AggFunc::Max => source.max(),
    };
    renamed(reduced, aggregate.output.as_str())
}

/// Asks the engine for what a request says: its frame grouped by its keys,
/// with one column for each aggregate, sorted by the first key. A frame that
/// comes back is taken only if its columns carry the names asked for.
/// Without a key nothing is asked.
pub fn run_grouping(request: GroupingRequest) -> (grouped: Option<DataFrame>)
    ensures
        grouped matches Some(frame) ==> frame_names(frame) == requested_names(request),
        request.keys@.len() == 0 ==> grouped is None,
{
    if request.keys.len() == 0 {
        return None;
    }
    let asked = names_asked(&request);
    let mut keys: Vec<Expr> = Vec::new();
    let mut i: usize = 0;
    while i < request.keys.len()
        invariant
            i <= request.keys@.len(),
        decreases request.keys@.len() - i,
    {
        keys.push(column_expr(request.keys[i].as_str()));
        i += 1;
    }
    let mut aggregates: Vec<Expr> = Vec::new();
    let mut j: usize = 0;
    while j < request.aggregates.len()
        invariant
            j <= request.aggregates@.len(),
        decreases request.aggregates@.len() - j,
    {
        aggregates.push(aggregate_expr(&request.aggregates[j]));
        j += 1;
    }
    let query = sorted_by(
        aggregated(grouped_by(lazy_query(request.frame.clone()), keys), aggregates),
        request.keys[0].as_str(),
    );
    match query.collect() {
        Ok(frame) => accept_grouped(frame, &asked),
        Err(_) => None,
    }
}

impl App {
    /// The aggregations that a grouping computes: those chosen on columns
    /// of the view, in column order.
    pub open spec fn planned_aggregates(self) -> Seq<(usize, AggFunc)> {
        aggregates_below(self.groupby_aggs@, self.headers@.len() as int)
    }

    /// The headers that a grouping of the view shows: the names of the keys,
    /// then one name `<column>_<function>` for each planned aggregate.
    pub open spec fn grouped_headers(self) -> Seq<Seq<char>> {
        grouped_names_of(self.headers@, self.groupby_keys@, self.planned_aggregates())
    }

    /// A grouping can be run: none is shown, at least one key is chosen,
    /// every key is a column of the view, and at least one aggregation is
    /// chosen on a column of the view.
    pub open spec fn grouping_is_ready(self) -> bool {
        &&& !self.groupby_active
        &&& self.groupby_keys@.len() > 0
        &&& forall|i: int|
            0 <= i < self.groupby_keys@.len() ==> self.groupby_keys@[i] < self.headers@.len()
        &&& self.planned_aggregates().len() > 0
    }

    /// `self` is `before` with the grouped frame `self.view` put in place
    /// of the view: the headers and widths of `before` are kept aside, the
    /// headers name the columns of the grouped frame, each with the default
    /// width, sort and search start afresh, and the first cell is selected.
    pub open spec fn shows_grouping_of(self, before: App) -> bool {
        &&& self.groupby_active
        &&& self.saved_headers == before.headers
        &&& self.saved_column_widths == before.column_widths
        &&& texts_view(self.headers@) == frame_names(self.view)
        &&& self.column_widths@.len() == self.headers@.len()
        &&& forall|i: int|
            0 <= i < self.column_widths@.len() ==> self.column_widths@[i] == DEFAULT_COLUMN_WIDTH
        &&& self.sort_column is None
        &&& self.search_query@.len() == 0
        &&& self.search_results@.len() == 0
        &&& self.search_cursor == 0
        &&& self.state == (Selection { row: Some(0usize), column: Some(0usize) })
        &&& self == (App {
            view: self.view,
            headers: self.headers,
            column_widths: self.column_widths,
            saved_headers: self.saved_headers,
            saved_column_widths: self.saved_column_widths,
            sort_column: None,
            search_query: self.search_query,
            search_results: self.search_results,
            search_cursor: 0,
            groupby_active: true,
            state: self.state,
            ..before
        })
    }

    /// Makes the selected column a grouping key, or takes it out of the
    /// keys where it is one. A column that becomes a key loses the
    /// aggregation chosen on it.
    pub fn toggle_groupby_key(&mut self)
        ensures
            toggled_key(*old(self), *final(self)),
            old(self).roles_disjoint() && old(self).keys_distinct() ==> final(self).roles_disjoint()
                && final(self).keys_distinct(),
            old(self).wf() ==> final(self).wf(),
    {
        broadcast use vstd::std_specs::hash::group_hash_axioms;

        let column = self.state.current_column();
        match first_position(&self.groupby_keys, column) {
            Some(at) => {
                let ghost before = self.groupby_keys@;
                self.groupby_keys.remove(at);
                assert(is_first_position(before, column, at as int));
                proof {
                    lemma_remove_keeps(before, at as int);
                }
                assert(old(self).roles_disjoint() ==> self.roles_disjoint()) by {
                    if old(self).roles_disjoint() {
                        assert forall|k: usize| self.groupby_keys@.contains(k) implies
                            !self.groupby_aggs@.contains_key(k) by {
                            assert(before.contains(k));
                        }
                    }
                }
            },
            None => {
                let ghost before = self.groupby_keys@;
                self.groupby_keys.push(column);
                self.groupby_aggs.remove(&column);
                assert forall|k: usize| self.groupby_keys@.contains(k) implies before.contains(k)
                    || k == column by {
                    let i = choose|i: int|
                        0 <= i < self.groupby_keys@.len() && self.groupby_keys@[i] == k;
                    if i < before.len() {
                        assert(before[i] == k);
                    }
                }
                assert(old(self).keys_distinct() ==> self.keys_distinct()) by {
                    if old(self).keys_distinct() {
                        assert forall|i: int, j: int|
                            0 <= i < j < self.groupby_keys@.len() implies self.groupby_keys@[i]
                            != self.groupby_keys@[j] by {
                            if j < before.len() {
                                assert(before[i] != before[j]);
                            } else {
                                assert(before[i] == self.groupby_keys@[i]);
                                assert(before.contains(before[i]));
                            }
                        }
                    }
                }
                assert(old(self).roles_disjoint() ==> self.roles_disjoint()) by {
                    if old(self).roles_disjoint() {
                        assert forall|k: usize| self.groupby_keys@.contains(k) implies
                            !self.groupby_aggs@.contains_key(k) by {
                            if k != column {
                                assert(before.contains(k));
                            }
                        }
                    }
                }
            },
        }
    }

    /// Moves the selected column to its next aggregation. A column that is
    /// a grouping key stops being one and gets the first aggregation, the
    /// sum.
    pub fn cycle_groupby_agg(&mut self)
        ensures
            cycled_aggregation(*old(self), *final(self)),
            old(self).roles_disjoint() && old(self).keys_distinct() ==> final(self).roles_disjoint()
                && final(self).keys_distinct(),
            old(self).wf() ==> final(self).wf(),
    {
        broadcast use vstd::std_specs::hash::group_hash_axioms;

        let column = self.state.current_column();
        match first_position(&self.groupby_keys, column) {
            Some(at) => {
                let ghost before = self.groupby_keys@;
                self.groupby_keys.remove(at);
                self.groupby_aggs.insert(column, AggFunc::Sum);
                assert(is_first_position(before, column, at as int));
                proof {
                    lemma_remove_keeps(before, at as int);
                }
                assert(old(self).keys_distinct() ==> !self.groupby_keys@.contains(column)) by {
                    if old(self).keys_distinct() && self.groupby_keys@.contains(column) {
                        let i = choose|i: int|
                            0 <= i < self.groupby_keys@.len() && self.groupby_keys@[i] == column;
                        if i < at {
                            assert(before[i] == column);
                        } else {
                            assert(before[i + 1] == column);
                        }
                    }
                }
                assert(old(self).roles_disjoint() && old(self).keys_distinct()
                    ==> self.roles_disjoint()) by {
                    if old(self).roles_disjoint() && old(self).keys_distinct() {
                        assert forall|k: usize| self.groupby_keys@.contains(k) implies
                            !self.groupby_aggs@.contains_key(k) by {
                            assert(before.contains(k));
                            assert(k != column);
                        }
                    }
                }
            },
            None => {
                let current: Option<AggFunc> = match self.groupby_aggs.get(&column) {
                    Some(func) => Some(*func),
                    None => None,
                };
                assert(current == old(self).groupby_aggs@.get(column));
                let next = match current {
                    None => Some(AggFunc::Sum),
                    Some(AggFunc::Sum) => Some(AggFunc::Mean),
                    Some(AggFunc::Mean) => Some(AggFunc::Count),
                    Some(AggFunc::Count) => Some(AggFunc::Min),
                    Some(AggFunc::Min) => Some(AggFunc::Max),
                    Some(AggFunc::Max) => None,
                };
                match next {
                    Some(func) => {
                        self.groupby_aggs.insert(column, func);
                    },
                    None => {
                        self.groupby_aggs.remove(&column);
                    },
                }
                assert(old(self).roles_disjoint() ==> self.roles_disjoint()) by {
                    if old(self).roles_disjoint() {
                        assert forall|k: usize| self.groupby_keys@.contains(k) implies
                            !self.groupby_aggs@.contains_key(k) by {
                            assert(k != column);
                        }
                    }
                }
            },
        }
    }

    /// Lists the aggregations that a grouping computes.
    pub fn aggregate_plan(&self) -> (plan: Vec<(usize, AggFunc)>)
        ensures
            plan@ == self.planned_aggregates(),
    {
        broadcast use vstd::std_specs::hash::group_hash_axioms;

        let mut plan: Vec<(usize, AggFunc)> = Vec::new();
        let mut c: usize = 0;
        while c < self.headers.len()
            invariant
                c <= self.headers@.len(),
                plan@ == aggregates_below(self.groupby_aggs@, c as int),
            decreases self.headers@.len() - c,
        {
            match self.groupby_aggs.get(&c) {
                Some(func) => {
                    plan.push((c, *func));
                },
                None => {},
            }
            c += 1;
        }
        plan
    }

    /// Are all grouping keys columns of the view?
    pub fn keys_exist(&self) -> (ok: bool)
        ensures
            ok == forall|i: int|
                0 <= i < self.groupby_keys@.len() ==> self.groupby_keys@[i] < self.headers@.len(),
    {
        let mut i: usize = 0;
        while i < self.groupby_keys.len()
            invariant
                i <= self.groupby_keys@.len(),
                forall|k: int| 0 <= k < i ==> self.groupby_keys@[k] < self.headers@.len(),
            decreases self.groupby_keys@.len() - i,
        {
            if self.groupby_keys[i] >= self.headers.len() {
                return false;
            }
            i += 1;
        }
        true
    }

    /// Says what a grouping of the view asks of the engine; nothing where
    /// no grouping can be run.
    pub fn grouping_request(&self) -> (request: Option<GroupingRequest>)
        ensures
            request is Some <==> self.grouping_is_ready(),
            request matches Some(asked) ==> is_request_of(asked, *self),
    {
        if self.groupby_active || self.groupby_keys.len() == 0 || !self.keys_exist() {
            return None;
        }
        let plan = self.aggregate_plan();
        if plan.len() == 0 {
            return None;
        }
        let columns = self.headers.len();
        proof {
            lemma_aggregates_below(self.groupby_aggs@, columns as int);
        }
        let ghost key_names = key_names_of(self.headers@, self.groupby_keys@);
        let mut keys: Vec<String> = Vec::new();
        let mut i: usize = 0;
        while i < self.groupby_keys.len()
            invariant
                i <= self.groupby_keys@.len(),
                forall|k: int|
                    0 <= k < self.groupby_keys@.len() ==> self.groupby_keys@[k]
                        < self.headers@.len(),
                key_names == key_names_of(self.headers@, self.groupby_keys@),
                keys@.len() == i,
                forall|k: int| 0 <= k < i ==> (#[trigger] keys@[k])@ == key_names[k],
            decreases self.groupby_keys@.len() - i,
        {
            keys.push(self.headers[self.groupby_keys[i]].clone());
            i += 1;
        }
        assert(texts_view(keys@) =~= key_names);
        let mut aggregates: Vec<AggregateRequest> = Vec::new();
        let mut j: usize = 0;
        while j < plan.len()
            invariant
                j <= plan@.len(),
                plan@ == self.planned_aggregates(),
                forall|k: int|
                    0 <= k < plan@.len() ==> (#[trigger] plan@[k]).0 < self.headers@.len(),
                aggregates@.len() == j,
                forall|k: int|
                    0 <= k < j ==> {
                        &&& (#[trigger] aggregates@[k]).column@ == self.headers@[plan@[k].0 as int]@
                        &&& aggregates@[k].func == plan@[k].1
                        &&& aggregates@[k].output@ == output_name_of(
                            self.headers@[plan@[k].0 as int]@,
                            plan@[k].1,
                        )
                    },
            decreases plan@.len() - j,
        {
            let name = &self.headers[plan[j].0];
            let ghost before = aggregates@;
            aggregates.push(
                AggregateRequest {
                    column: name.clone(),
                    func: plan[j].1,
                    output: output_name(name.as_str(), plan[j].1),
                },
            );
            assert forall|k: int| 0 <= k < j + 1 implies {
                &&& (#[trigger] aggregates@[k]).column@ == self.headers@[plan@[k].0 as int]@
                &&& aggregates@[k].func == plan@[k].1
                &&& aggregates@[k].output@ == output_name_of(
                    self.headers@[plan@[k].0 as int]@,
                    plan@[k].1,
                )
            } by {
                if k < j {
                    assert(aggregates@[k] == before[k]);
                }
            }
            j += 1;
        }
        Some(GroupingRequest { frame: self.view.clone(), keys, aggregates })
    }

    /// Puts a grouped frame in place of the view.
    pub fn show_grouping(&mut self, grouped: DataFrame)
        ensures
            final(self).view == grouped,
            final(self).shows_grouping_of(*old(self)),
            old(self).wf() && !old(self).groupby_active ==> final(self).wf(),
    {
        let headers = column_names(&grouped);
        let widths = default_widths(headers.len());
        assert(texts_view(headers@).len() == headers@.len());
        let mut saved_headers: Vec<String> = Vec::new();
        let mut saved_widths: Vec<u16> = Vec::new();
        std::mem::swap(&mut saved_headers, &mut self.headers);
        std::mem::swap(&mut saved_widths, &mut self.column_widths);
        self.saved_headers = saved_headers;
        self.saved_column_widths = saved_widths;
        self.headers = headers;
        self.column_widths = widths;
        self.sort_column = None;
        self.search_query = String::new();
        self.search_results = Vec::new();
        self.search_cursor = 0;
        self.view = grouped;
        self.groupby_active = true;
        self.state.select(Some(0));
        self.state.select_column(Some(0));
    }

    /// Takes what the engine made of a grouping: a frame is shown in place
    /// of the view, and without one the state stays as it is.
    pub fn settle_grouping(&mut self, outcome: Option<DataFrame>)
        ensures
            match outcome {
                Some(grouped) => final(self).view == grouped && final(self).shows_grouping_of(
                    *old(self),
                ),
                None => *final(self) == *old(self),
            },
            old(self).wf() && !old(self).groupby_active ==> final(self).wf(),
    {
        match outcome {
            Some(grouped) => {
                self.show_grouping(grouped);
            },
            None => {},
        }
    }

    /// Runs the grouping that was set up and shows its result in place of
    /// the view: one row for each group of the view, under the names of the
    /// keys followed by one name `<column>_<function>` for each aggregate.
    /// Nothing happens where no grouping can be run, and the state stays as
    /// it is where the engine cannot compute the result.
    pub fn apply_groupby(&mut self)
        ensures
            applied_grouping(*old(self), *final(self)),
            old(self).wf() ==> final(self).wf(),
    {
        match self.grouping_request() {
            Some(request) => {
                let ghost names = requested_names(request);
                assert(names =~= old(self).grouped_headers());
                let outcome = run_grouping(request);
                self.settle_grouping(outcome);
                assert(texts_view(self.headers@).len() == self.headers@.len());
            },
            None => {},
        }
    }

    /// Ends a grouping: the headers and widths that were kept aside come
    /// back, the keys and aggregations are dropped, the sort is given up,
    /// and the view is derived again from the table and its filters. A
    /// query that is active stays and is searched again in that view.
    pub fn clear_groupby(&mut self)
        ensures
            cleared_grouping(*old(self), *final(self)),
            old(self).wf() ==> final(self).wf(),
    {
        broadcast use vstd::std_specs::hash::group_hash_axioms;

        if self.groupby_active {
            let mut headers: Vec<String> = Vec::new();
            let mut widths: Vec<u16> = Vec::new();
            std::mem::swap(&mut headers, &mut self.saved_headers);
            std::mem::swap(&mut widths, &mut self.saved_column_widths);
            self.headers = headers;
            self.column_widths = widths;
        }
        self.groupby_keys = Vec::new();
        self.groupby_aggs = HashMap::new();
        self.groupby_active = false;
        self.sort_column = None;
        self.search_results = Vec::new();
        self.search_cursor = 0;
        self.update_filter();
    }
}

} // verus!
