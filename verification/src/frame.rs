//! The table engine. A frame is a `polars` data frame; this module declares
//! it to the verifier, names what a frame holds, and states for each call
//! into the engine what the rest of the library relies on. Nothing in this
//! module is proved: every contract here describes code of the engine.
use crate::text::column_view;
use crate::text::texts_view;
use polars::prelude::AnyValue;
use polars::prelude::BooleanChunked;
use polars::prelude::Column;
use polars::prelude::DataFrame;
use polars::prelude::DataType;
use polars::prelude::NewChunkedArray;
use polars::prelude::PolarsError;
use polars::prelude::SortMultipleOptions;
use vstd::prelude::*;

verus! {

/// `polars::prelude::DataFrame`, a table of named columns. Opaque: what a
/// frame holds is known through the names below only.
#[verifier::external_type_specification]
#[verifier::external_body]
pub struct ExDataFrame(DataFrame);

/// `polars::prelude::Column`, one column of a frame. Opaque; the library
/// never holds one.
#[verifier::external_type_specification]
#[verifier::external_body]
pub struct ExColumn(Column);

/// `polars::prelude::PolarsError`, the error of the engine. Opaque; the
/// library only tells success from failure.
#[verifier::external_type_specification]
#[verifier::external_body]
pub struct ExPolarsError(PolarsError);

/// How the engine stores the values of a column, as far as the library
/// tells storage types apart: the ten numeric types, text, and all others.
#[derive(Clone, Copy, Debug, PartialEq, Eq, Structural)]
pub enum ColumnKind {
    Int8,
    Int16,
    Int32,
    Int64,
    UInt8,
    UInt16,
    UInt32,
    UInt64,
    Float32,
    Float64,
    Text,
    Other,
}

/// Number of rows that a frame holds.
pub uninterp spec fn frame_height(frame: DataFrame) -> nat;

/// Names of a frame's columns, in column order.
pub uninterp spec fn frame_names(frame: DataFrame) -> Seq<Seq<char>>;

/// The cells of the column called `name`, top to bottom, each rendered as
/// text (`None` for a null cell); `None` where the frame has no such column
/// or its values have no text rendering.
pub uninterp spec fn frame_text(frame: DataFrame, name: Seq<char>) -> Option<
    Seq<Option<Seq<char>>>,
>;

/// The storage kind of the column called `name`; `None` where the frame has
/// no such column.
pub uninterp spec fn frame_kind(frame: DataFrame, name: Seq<char>) -> Option<ColumnKind>;

/// The cells of the column called `name`, top to bottom, each converted to a
/// double-precision number and given as its IEEE 754 bit pattern (`None` for
/// a null cell); `None` where the frame has no such column or it cannot be
/// converted.
pub uninterp spec fn frame_numbers(frame: DataFrame, name: Seq<char>) -> Option<
    Seq<Option<u64>>,
>;

/// The order in which the engine's sort by the column called `name` puts
/// the rows of a frame: position `i` of the sorted frame holds row
/// `sort_order(..)[i]` of the frame that was sorted.
pub uninterp spec fn sort_order(frame: DataFrame, name: Seq<char>, descending: bool) -> Seq<int>;

/// Row `i` of a frame may stand before row `j` when the frame is sorted by
/// the column called `name` in the given direction: its cell is null, or
/// neither cell is and its value is not the greater one (ascending) or not
/// the smaller one (descending) under the engine's order.
pub uninterp spec fn row_may_precede(
    frame: DataFrame,
    name: Seq<char>,
    descending: bool,
    i: int,
    j: int,
) -> bool;

/// The mean of the column called `name` as the bit pattern of a
/// double-precision number; `None` where the frame has no such column or the
/// column has no mean.
pub uninterp spec fn frame_mean(frame: DataFrame, name: Seq<char>) -> Option<u64>;

/// The median of the column called `name` as the bit pattern of a
/// double-precision number; `None` where the frame has no such column or the
/// column has no median.
pub uninterp spec fn frame_median(frame: DataFrame, name: Seq<char>) -> Option<u64>;

/// Rows `i` and `j` of a frame tie in the column called `name`: each may
/// stand before the other, because their values compare equal under the
/// engine's order or both cells are null.
pub open spec fn rows_tie(frame: DataFrame, name: Seq<char>, i: int, j: int) -> bool {
    row_may_precede(frame, name, false, i, j) && row_may_precede(frame, name, false, j, i)
}

/// The rows of a frame put in the order `rows` stand in the order of the
/// column called `name`: each row may precede every later one.
pub open spec fn in_key_order(
    before: DataFrame,
    name: Seq<char>,
    descending: bool,
    rows: Seq<int>,
) -> bool {
    forall|a: int, b: int|
        0 <= a < b < rows.len() ==> #[trigger] row_may_precede(
            before,
            name,
            descending,
            rows[a],
            rows[b],
        )
}

/// A sort that put the rows of `before` in the order `rows` moved each row
/// as a whole, so that rows stand to each other in `after` as they did in
/// `before`; and where the frame has more than one column, it kept the
/// order of rows that tie in the column called `name`.
pub open spec fn keeps_ties(
    after: DataFrame,
    before: DataFrame,
    name: Seq<char>,
    rows: Seq<int>,
) -> bool {
    &&& frame_names(before).len() > 1 ==> forall|a: int, b: int|
        0 <= a < b < rows.len() && #[trigger] rows_tie(before, name, rows[a], rows[b])
            ==> rows[a] < rows[b]
    &&& forall|direction: bool, a: int, b: int|
        0 <= a < rows.len() && 0 <= b < rows.len() ==> #[trigger] row_may_precede(
            after,
            name,
            direction,
            a,
            b,
        ) == row_may_precede(before, name, direction, rows[a], rows[b])
}

/// The frame has a column called `name` that holds numbers or text: the
/// engine sorts by such a column without fail.
pub open spec fn sorts_without_fail(frame: DataFrame, name: Seq<char>) -> bool {
    match frame_kind(frame, name) {
        Some(kind) => kind != ColumnKind::Other,
        None => false,
    }
}

/// The positions of a mask that are set, in increasing order.
pub open spec fn kept_rows(mask: Seq<bool>) -> Seq<int>
    decreases mask.len(),
{
    if mask.len() == 0 {
        Seq::empty()
    } else if mask.last() {
        kept_rows(mask.drop_last()).push(mask.len() - 1)
    } else {
        kept_rows(mask.drop_last())
    }
}

/// What a mask keeps: the set positions and no others, each once, in
/// increasing order. A mask with nothing set keeps nothing, and one with
/// everything set keeps every row in its place.
pub proof fn lemma_kept_rows(mask: Seq<bool>)
    ensures
        kept_rows(mask).len() <= mask.len(),
        forall|k: int|
            0 <= k < kept_rows(mask).len() ==> 0 <= (#[trigger] kept_rows(mask)[k]) < mask.len()
                && mask[kept_rows(mask)[k]],
        forall|r: int|
            0 <= r < mask.len() && #[trigger] mask[r] ==> kept_rows(mask).contains(r),
        forall|a: int, b: int|
            0 <= a < b < kept_rows(mask).len() ==> (#[trigger] kept_rows(mask)[a])
                < (#[trigger] kept_rows(mask)[b]),
        (forall|r: int| 0 <= r < mask.len() ==> !#[trigger] mask[r]) ==> kept_rows(mask).len()
            == 0,
        (forall|r: int| 0 <= r < mask.len() ==> #[trigger] mask[r]) ==> kept_rows(mask).len()
            == mask.len() && forall|k: int|
            0 <= k < mask.len() ==> #[trigger] kept_rows(mask)[k] == k,
    decreases mask.len(),
{
    if mask.len() > 0 {
        let rest = mask.drop_last();
        lemma_kept_rows(rest);
        let prev = kept_rows(rest);
        let cur = kept_rows(mask);
        let last = mask.len() - 1;
        assert forall|r: int| 0 <= r < mask.len() && #[trigger] mask[r] implies cur.contains(
            r,
        ) by {
            if r < last {
                assert(rest[r]);
                let k = choose|k: int| 0 <= k < prev.len() && prev[k] == r;
                assert(cur[k] == r);
            } else {
                assert(cur[prev.len() as int] == r);
            }
        }
        assert forall|k: int| 0 <= k < cur.len() implies 0 <= (#[trigger] cur[k]) < mask.len()
            && mask[cur[k]] by {
            if k < prev.len() {
                assert(cur[k] == prev[k]);
                assert(rest[prev[k]]);
            }
        }
        assert forall|a: int, b: int| 0 <= a < b < cur.len() implies (#[trigger] cur[a]) < (
        #[trigger] cur[b]) by {
            if b < prev.len() {
                assert(cur[a] == prev[a] && cur[b] == prev[b]);
            } else {
                assert(cur[a] == prev[a]);
            }
        }
        if forall|r: int| 0 <= r < mask.len() ==> !#[trigger] mask[r] {
            assert forall|r: int| 0 <= r < rest.len() implies !#[trigger] rest[r] by {
                assert(!mask[r]);
            }
        }
        if forall|r: int| 0 <= r < mask.len() ==> #[trigger] mask[r] {
            assert forall|r: int| 0 <= r < rest.len() implies #[trigger] rest[r] by {
                assert(mask[r]);
            }
            assert(mask[last]);
            assert forall|k: int| 0 <= k < mask.len() implies #[trigger] cur[k] == k by {
                if k < prev.len() {
                    assert(cur[k] == prev[k]);
                }
            }
        }
    }
}

/// The rows of `cells` picked out by `rows`, in the order of `rows`.
pub open spec fn gather<T>(cells: Seq<T>, rows: Seq<int>) -> Seq<T> {
    Seq::new(rows.len(), |i: int| cells[rows[i]])
}

/// A nullable column with its rows picked out by `rows`.
pub open spec fn gather_column<T>(cells: Option<Seq<T>>, rows: Seq<int>) -> Option<Seq<T>> {
    match cells {
        Some(c) => Some(gather(c, rows)),
        None => None,
    }
}

/// `rows` lists every index below `n` exactly once.
pub open spec fn is_permutation(rows: Seq<int>, n: nat) -> bool {
    &&& rows.len() == n
    &&& forall|i: int| 0 <= i < rows.len() ==> 0 <= #[trigger] rows[i] < n
    &&& forall|i: int, j: int|
        0 <= i < j < rows.len() ==> #[trigger] rows[i] != #[trigger] rows[j]
}

/// `after` holds the rows `rows` of `before`, in that order, under the same
/// column names and in columns of the same kinds.
pub open spec fn holds_rows_of(after: DataFrame, before: DataFrame, rows: Seq<int>) -> bool {
    &&& frame_names(after) == frame_names(before)
    &&& frame_height(after) == rows.len()
    &&& forall|name: Seq<char>| #[trigger]
        frame_text(after, name) == gather_column(frame_text(before, name), rows)
    &&& forall|name: Seq<char>| #[trigger]
        frame_numbers(after, name) == gather_column(frame_numbers(before, name), rows)
    &&& forall|name: Seq<char>| #[trigger] frame_kind(after, name) == frame_kind(before, name)
}

/// `DataFrame::height`: the number of rows.
pub assume_specification[ DataFrame::height ](frame: &DataFrame) -> (n: usize)
    ensures
        n == frame_height(*frame),
;

/// `DataFrame::clone`: a frame equal to the one it was made from.
pub assume_specification[ <DataFrame as Clone>::clone ](frame: &DataFrame) -> (copy: DataFrame)
    ensures
        copy == *frame,
;

/// Calls `DataFrame::get_column_names` and copies each name: the names of
/// the columns, in column order.
#[verifier::external_body]
pub(crate) fn column_names(frame: &DataFrame) -> (names: Vec<String>)
    ensures
        texts_view(names@) == frame_names(*frame),
{
    frame.get_column_names().iter().map(|s| s.to_string()).collect()
}

/// Looks a column up with `DataFrame::column`, converts it with
/// `Column::cast` to strings and copies the cells out. The result is the
/// named text of that column, and a column that is there has one cell for
/// each row.
#[verifier::external_body]
pub(crate) fn column_text(frame: &DataFrame, name: &str) -> (cells: Option<Vec<Option<String>>>)
    ensures
        match cells {
            Some(c) => frame_text(*frame, name@) == Some(column_view(c@)) && c@.len()
                == frame_height(*frame),
            None => frame_text(*frame, name@) is None,
        },
{
    let cast = frame.column(name).ok()?.cast(&DataType::String).ok()?;
    Some(cast.str().ok()?.iter().map(|v| v.map(|s| s.to_string())).collect())
}

/// Reads `Column::dtype` of the column that `DataFrame::column` finds, and
/// tells the ten numeric storage types and the string type apart from all
/// others.
#[verifier::external_body]
pub(crate) fn column_kind(frame: &DataFrame, name: &str) -> (kind: Option<ColumnKind>)
    ensures
        kind == frame_kind(*frame, name@),
{
    Some(match frame.column(name).ok()?.dtype() {
        DataType::Int8 => ColumnKind::Int8,
        DataType::Int16 => ColumnKind::Int16,
        DataType::Int32 => ColumnKind::Int32,
        DataType::Int64 => ColumnKind::Int64,
        DataType::UInt8 => ColumnKind::UInt8,
        DataType::UInt16 => ColumnKind::UInt16,
        DataType::UInt32 => ColumnKind::UInt32,
        DataType::UInt64 => ColumnKind::UInt64,
        DataType::Float32 => ColumnKind::Float32,
        DataType::Float64 => ColumnKind::Float64,
        DataType::String => ColumnKind::Text,
        _ => ColumnKind::Other,
    })
}

/// Looks a column up with `DataFrame::column`, converts it with
/// `Column::cast` to double precision and copies the bit pattern of each
/// cell out. The result is the named numbers of that column, and a column
/// that is there has one cell for each row.
#[verifier::external_body]
pub(crate) fn column_numbers(frame: &DataFrame, name: &str) -> (cells: Option<Vec<Option<u64>>>)
    ensures
        match cells {
            Some(c) => frame_numbers(*frame, name@) == Some(c@) && c@.len() == frame_height(
                *frame,
            ),
            None => frame_numbers(*frame, name@) is None,
        },
{
    let cast = frame.column(name).ok()?.cast(&DataType::Float64).ok()?;
    Some(cast.as_materialized_series().iter().map(|v| match v {
        AnyValue::Float64(x) => Some(x.to_bits()),
        _ => None,
    }).collect())
}

/// Calls `DataFrame::filter` with the mask as a boolean array without
/// nulls. With one mask entry for each row the engine keeps the rows whose
/// entry is set, in their order, and does not fail.
#[verifier::external_body]
pub(crate) fn keep_rows(frame: &DataFrame, mask: &Vec<bool>) -> (kept: Option<DataFrame>)
    ensures
        mask@.len() == frame_height(*frame) ==> kept is Some,
        mask@.len() == frame_height(*frame) ==> holds_rows_of(
            kept->Some_0,
            *frame,
            kept_rows(mask@),
        ),
{
    frame.filter(&BooleanChunked::from_slice("".into(), mask)).ok()
}

/// Calls `DataFrame::sort` by one column, in the given direction, with the
/// option that keeps the order of rows whose values are equal. A frame that
/// comes back holds the rows of the argument in the named sort order, which
/// lists every row once and puts the rows in the order of the column's
/// values, nulls first. Rows are moved whole, so they stand to each other
/// in the sorted frame as they did before. On a frame with more than one
/// column the engine sorts row numbers and keeps ties in place; a frame
/// with a single column is sorted by value, and nothing is claimed of its
/// ties. The engine sorts
/// by a column of numbers or of text without fail; by any other column it
/// may refuse.
#[verifier::external_body]
pub(crate) fn sort_rows(frame: &DataFrame, name: &str, descending: bool) -> (sorted: Option<
    DataFrame,
>)
    ensures
        sorts_without_fail(*frame, name@) ==> sorted is Some,
        sorted is Some ==> holds_rows_of(
            sorted->Some_0,
            *frame,
            sort_order(*frame, name@, descending),
        ),
        sorted is Some ==> is_permutation(
            sort_order(*frame, name@, descending),
            frame_height(*frame),
        ),
        sorted is Some ==> forall|a: int, b: int|
            0 <= a < b < frame_height(*frame) ==> #[trigger] row_may_precede(
                *frame,
                name@,
                descending,
                sort_order(*frame, name@, descending)[a],
                sort_order(*frame, name@, descending)[b],
            ),
        sorted is Some && frame_names(*frame).len() > 1 ==> forall|a: int, b: int|
            0 <= a < b < frame_height(*frame) && #[trigger] rows_tie(
                *frame,
                name@,
                sort_order(*frame, name@, descending)[a],
                sort_order(*frame, name@, descending)[b],
            ) ==> sort_order(*frame, name@, descending)[a] < sort_order(
                *frame,
                name@,
                descending,
            )[b],
        sorted is Some ==> forall|direction: bool, a: int, b: int|
            0 <= a < frame_height(*frame) && 0 <= b < frame_height(*frame)
                ==> #[trigger] row_may_precede(sorted->Some_0, name@, direction, a, b)
                == row_may_precede(
                *frame,
                name@,
                direction,
                sort_order(*frame, name@, descending)[a],
                sort_order(*frame, name@, descending)[b],
            ),
{
    let options = SortMultipleOptions::default().with_order_descending(
        descending,
    ).with_maintain_order(true);
    frame.sort([name], options).ok()
}

/// Calls `Column::min_reduce` on the column that `DataFrame::column` finds
/// and renders the value with its `Display` form. How the engine writes a
/// number depends on formatting settings that a process can change, so the
/// text gets no name and nothing is claimed of it.
#[verifier::external_body]
pub(crate) fn column_min(frame: &DataFrame, name: &str) -> (text: Option<String>) {
    frame.column(name).ok()?.min_reduce().ok().map(|s| s.value().to_string())
}

/// Calls `Column::max_reduce` on the column that `DataFrame::column` finds
/// and renders the value with its `Display` form. As for the smallest value,
/// nothing is claimed of the text.
#[verifier::external_body]
pub(crate) fn column_max(frame: &DataFrame, name: &str) -> (text: Option<String>) {
    frame.column(name).ok()?.max_reduce().ok().map(|s| s.value().to_string())
}

/// Calls `Series::mean` on the column that `DataFrame::column` finds and
/// gives the bit pattern of the result: the named mean.
#[verifier::external_body]
pub(crate) fn column_mean(frame: &DataFrame, name: &str) -> (bits: Option<u64>)
    ensures
        bits == frame_mean(*frame, name@),
{
    frame.column(name).ok()?.as_materialized_series().mean().map(|v| v.to_bits())
}

/// Calls `Series::median` on the column that `DataFrame::column` finds and
/// gives the bit pattern of the result: the named median.
#[verifier::external_body]
pub(crate) fn column_median(frame: &DataFrame, name: &str) -> (bits: Option<u64>)
    ensures
        bits == frame_median(*frame, name@),
{
    frame.column(name).ok()?.as_materialized_series().median().map(|v| v.to_bits())
}

} // verus!
