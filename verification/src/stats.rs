//! Column statistics: how many rows the view has, and the smallest value,
//! the largest, the mean and the median of one of its columns as the engine
//! reports them.
use crate::frame::column_kind;
use crate::frame::column_max;
use crate::frame::column_mean;
use crate::frame::column_median;
use crate::frame::column_min;
use crate::frame::frame_height;
use crate::frame::frame_kind;
use crate::frame::frame_mean;
use crate::frame::frame_median;
use crate::model::App;
use crate::model::ColumnStats;
use vstd::prelude::*;

verus! {

/// The text of a value that may be missing: empty where it is.
pub open spec fn text_or_empty(text: Option<String>) -> Seq<char> {
    match text {
        Some(t) => t@,
        None => Seq::empty(),
    }
}

/// Puts a summary together from what the engine reported: a missing
/// smallest or largest value reads as an empty text, a missing mean or
/// median stays missing.
pub fn stats_from(
    count: usize,
    min: Option<String>,
    max: Option<String>,
    mean: Option<u64>,
    median: Option<u64>,
) -> (stats: ColumnStats)
    ensures
        stats.count == count,
        stats.min@ == text_or_empty(min),
        stats.max@ == text_or_empty(max),
        stats.mean == mean,
        stats.median == median,
{
    let min_text = match min {
        Some(t) => t,
        None => String::new(),
    };
    let max_text = match max {
        Some(t) => t,
        None => String::new(),
    };
    ColumnStats { count, min: min_text, max: max_text, mean, median }
}

impl App {
    /// The view has something to summarise in column `col`: the column
    /// exists and the view has a row.
    pub open spec fn has_stats(self, col: usize) -> bool {
        &&& col < self.headers@.len()
        &&& frame_height(self.view) > 0
        &&& frame_kind(self.view, self.headers@[col as int]@) is Some
    }

    /// Summarises a column of the view. A column that does not exist, or a
    /// view without rows, gives the blank summary; otherwise the count is
    /// the number of rows of the view, mean and median are those that the
    /// engine finds in the column, and the smallest and the largest value
    /// are given as the engine writes them.
    pub fn compute_stats(&mut self, col: usize) -> (stats: ColumnStats)
        ensures
            *final(self) == *old(self),
            !old(self).has_stats(col) ==> stats.is_blank(),
            old(self).has_stats(col) ==> {
                let name = old(self).headers@[col as int]@;
                &&& stats.count == frame_height(old(self).view)
                &&& stats.mean == frame_mean(old(self).view, name)
                &&& stats.median == frame_median(old(self).view, name)
            },
    {
        if col >= self.headers.len() {
            return ColumnStats::default();
        }
        let rows = self.view.height();
        if rows == 0 {
            return ColumnStats::default();
        }
        let name = self.headers[col].as_str();
        if column_kind(&self.view, name).is_none() {
            return ColumnStats::default();
        }
        stats_from(
            rows,
            column_min(&self.view, name),
            column_max(&self.view, name),
            column_mean(&self.view, name),
            column_median(&self.view, name),
        )
    }
}

} // verus!
