//! Grouped queries on the table engine. An expression, a lazy frame and a
//! pending grouping are values of the engine that the library only passes
//! on; what a query returns is the engine's business, and no contract here
//! says anything about it.
use polars::prelude::col;
use polars::prelude::DataFrame;
use polars::prelude::Expr;
use polars::prelude::IntoLazy;
use polars::prelude::LazyFrame;
use polars::prelude::LazyGroupBy;
use polars::prelude::PolarsError;
use polars::prelude::SortMultipleOptions;
use vstd::prelude::*;

verus! {

/// `polars::prelude::Expr`, an expression over the columns of a frame.
/// Opaque.
#[verifier::external_type_specification]
#[verifier::external_body]
pub struct ExExpr(Expr);

/// `polars::prelude::LazyFrame`, a query that has not run yet. Opaque.
#[verifier::external_type_specification]
#[verifier::external_body]
pub struct ExLazyFrame(LazyFrame);

/// `polars::prelude::LazyGroupBy`, a query grouped by keys and waiting for
/// its aggregates. Opaque.
#[verifier::external_type_specification]
#[verifier::external_body]
pub struct ExLazyGroupBy(LazyGroupBy);

/// Calls `col`: the expression that stands for a column.
#[verifier::external_body]
pub(crate) fn column_expr(name: &str) -> Expr {
    col(name)
}

/// `Expr::sum`: the sum of an expression within each group.
pub assume_specification[ Expr::sum ](e: Expr) -> Expr;

/// `Expr::mean`: the mean of an expression within each group.
pub assume_specification[ Expr::mean ](e: Expr) -> Expr;

/// `Expr::count`: the number of values of an expression within each group.
pub assume_specification[ Expr::count ](e: Expr) -> Expr;

/// `Expr::min`: the smallest value of an expression within each group.
pub assume_specification[ Expr::min ](e: Expr) -> Expr;

/// `Expr::max`: the largest value of an expression within each group.
pub assume_specification[ Expr::max ](e: Expr) -> Expr;

/// Calls `Expr::alias`: the expression under another output name.
#[verifier::external_body]
pub(crate) fn renamed(e: Expr, name: &str) -> Expr {
    e.alias(name)
}

/// Calls `IntoLazy::lazy` on a frame: a query that starts from it.
#[verifier::external_body]
pub(crate) fn lazy_query(frame: DataFrame) -> LazyFrame {
    frame.lazy()
}

/// Calls `LazyFrame::group_by`: the query grouped by key expressions.
#[verifier::external_body]
pub(crate) fn grouped_by(query: LazyFrame, keys: Vec<Expr>) -> LazyGroupBy {
    query.group_by(keys)
}

/// Calls `LazyGroupBy::agg`: one row for each group, with the keys and the
/// given aggregates as columns.
#[verifier::external_body]
pub(crate) fn aggregated(groups: LazyGroupBy, aggregates: Vec<Expr>) -> LazyFrame {
    groups.agg(aggregates)
}

/// Calls `LazyFrame::sort` by one column, ascending, with the default
/// options.
#[verifier::external_body]
pub(crate) fn sorted_by(query: LazyFrame, name: &str) -> LazyFrame {
    query.sort([name], SortMultipleOptions::default())
}

/// `LazyFrame::collect`: runs a query.
pub assume_specification[ LazyFrame::collect ](query: LazyFrame) -> Result<DataFrame, PolarsError>;

} // verus!
