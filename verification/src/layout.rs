//! Column layout: the label that a column's header shows, with its sort and
//! grouping markers, and the width that fits a column to its label and to
//! its widest cell.
use crate::frame::column_text;
use crate::frame::frame_text;
use crate::model::AggFunc;
use crate::model::App;
use crate::model::SortDirection;
use crate::text::column_view;
use crate::text::display_width;
use crate::text::width_of;
use vstd::prelude::*;
use vstd::string::StringExecFns;

verus! {

/// The sign that a header shows for an aggregation.
pub open spec fn agg_symbol(func: AggFunc) -> Seq<char> {
    match func {
        AggFunc::Sum => "Σ"@,
        AggFunc::Mean => "μ"@,
        AggFunc::Count => "#"@,
        AggFunc::Min => "↓"@,
        AggFunc::Max => "↑"@,
    }
}

/// The sign that a header shows for an aggregation.
pub fn symbol_of(func: AggFunc) -> (symbol: &'static str)
    ensures
        symbol@ == agg_symbol(func),
{
    match func {
        AggFunc::Sum => "Σ",
        AggFunc::Mean => "μ",
        AggFunc::Count => "#",
        AggFunc::Min => "↓",
        AggFunc::Max => "↑",
    }
}

/// Does the list hold the column?
pub fn holds_column(columns: &Vec<usize>, column: usize) -> (found: bool)
    ensures
        found == columns@.contains(column),
{
    let mut i: usize = 0;
    while i < columns.len()
        invariant
            i <= columns@.len(),
            forall|k: int| 0 <= k < i ==> columns@[k] != column,
        decreases columns@.len() - i,
    {
        if columns[i] == column {
            return true;
        }
        i += 1;
    }
    false
}

/// The widest of the first `n` cells of a column; a null cell has no width.
pub open spec fn widest_below(cells: Seq<Option<Seq<char>>>, n: int) -> int
    decreases n,
{
    if n <= 0 {
        0
    } else {
        let rest = widest_below(cells, n - 1);
        match cells[n - 1] {
            Some(text) => if display_width(text) > rest {
                display_width(text)
            } else {
                rest
            },
            None => rest,
        }
    }
}

/// The width that fits a column: that of its label or of its widest cell,
/// whichever is larger. A column without text is as wide as its label.
pub open spec fn fitted_width(label: Seq<char>, cells: Option<Seq<Option<Seq<char>>>>) -> int {
    let data = match cells {
        Some(c) => widest_below(c, c.len() as int),
        None => 0,
    };
    if data > display_width(label) {
        data
    } else {
        display_width(label)
    }
}

/// `widest_below` is a width, and no cell among the first `n` is wider.
pub proof fn lemma_widest_below(cells: Seq<Option<Seq<char>>>, n: int)
    requires
        0 <= n <= cells.len(),
    ensures
        0 <= widest_below(cells, n) <= u16::MAX,
        forall|i: int|
            0 <= i < n && (#[trigger] cells[i]) is Some ==> display_width(cells[i]->Some_0)
                <= widest_below(cells, n),
    decreases n,
{
    if n > 0 {
        lemma_widest_below(cells, n - 1);
    }
}

/// A fitted column is at least as wide as its label, markers included, and
/// as every one of its cells. Widths are counted in characters and stop at
/// the largest sixteen-bit number, so the bound is on texts that are not
/// longer than that.
pub proof fn lemma_fitted_width_covers(label: Seq<char>, cells: Seq<Option<Seq<char>>>)
    ensures
        0 <= fitted_width(label, Some(cells)) <= u16::MAX,
        label.len() <= u16::MAX ==> fitted_width(label, Some(cells)) >= label.len(),
        forall|i: int|
            0 <= i < cells.len() && (#[trigger] cells[i]) is Some && cells[i]->Some_0.len()
                <= u16::MAX ==> fitted_width(label, Some(cells)) >= cells[i]->Some_0.len(),
{
    lemma_widest_below(cells, cells.len() as int);
}

/// The width of the widest cell of a column.
pub fn widest_cell(cells: &Vec<Option<String>>) -> (w: u16)
    ensures
        w == widest_below(column_view(cells@), cells@.len() as int),
{
    let mut w: u16 = 0;
    let mut i: usize = 0;
    while i < cells.len()
        invariant
            i <= cells@.len(),
            w == widest_below(column_view(cells@), i as int),
        decreases cells@.len() - i,
    {
        match &cells[i] {
            Some(text) => {
                let len = width_of(text.as_str());
                if len > w {
                    w = len;
                }
            },
            None => {},
        }
        i += 1;
    }
    w
}

/// What fitting the selected column does: its width becomes the fitted
/// width, and nothing else changes. Nothing happens where no column is
/// selected, or the selected one does not exist or has no width.
pub open spec fn fitted_selected(before: App, after: App) -> bool {
    &&& match before.state.column {
        Some(c) => if c < before.headers@.len() && c < before.column_widths@.len() {
            &&& after.column_widths@[c as int] == before.fitted(c)
            &&& after.column_widths@ == before.column_widths@.update(
                c as int,
                after.column_widths@[c as int],
            )
        } else {
            after.column_widths@ == before.column_widths@
        },
        None => after.column_widths@ == before.column_widths@,
    }
    &&& after == (App { column_widths: after.column_widths, ..before })
}

/// What fitting every column does: each width of a column that exists
/// becomes the fitted width, and nothing else changes.
pub open spec fn fitted_all(before: App, after: App) -> bool {
    &&& after.column_widths@.len() == before.column_widths@.len()
    &&& forall|c: int|
        0 <= c < before.column_widths@.len() ==> #[trigger] after.column_widths@[c] == (if c
            < before.headers@.len() {
            before.fitted(c as usize)
        } else {
            before.column_widths@[c] as int
        })
    &&& after == (App { column_widths: after.column_widths, ..before })
}

impl App {
    /// The marker that the header of the sorted column carries.
    pub open spec fn sort_marker(self, column: usize) -> Seq<char> {
        if self.sort_column == Some(column) {
            if self.sort_direction == SortDirection::Descending {
                " ▼"@
            } else {
                " ▲"@
            }
        } else {
            Seq::empty()
        }
    }

    /// The marker that the header of a grouping key or of an aggregation
    /// target carries.
    pub open spec fn role_marker(self, column: usize) -> Seq<char> {
        if self.groupby_keys@.contains(column) {
            " [K]"@
        } else if self.groupby_aggs@.contains_key(column) {
            " ["@ + agg_symbol(self.groupby_aggs@[column]) + "]"@
        } else {
            Seq::empty()
        }
    }

    /// The label of a column: its name, then the sort marker, then the
    /// grouping marker. A column that does not exist has an empty label.
    pub open spec fn label_of(self, column: usize) -> Seq<char> {
        if column < self.headers@.len() {
            self.headers@[column as int]@ + self.sort_marker(column) + self.role_marker(column)
        } else {
            Seq::empty()
        }
    }

    /// The width that fits a column of the view.
    pub open spec fn fitted(self, column: usize) -> int {
        fitted_width(self.label_of(column), frame_text(self.view, self.headers@[column as int]@))
    }

    /// The label that the header of a column shows.
    pub fn header_label(&self, col_idx: usize) -> (label: String)
        ensures
            label@ == self.label_of(col_idx),
    {
        broadcast use vstd::std_specs::hash::group_hash_axioms;

        if col_idx >= self.headers.len() {
            return String::new();
        }
        let mut label = self.headers[col_idx].clone();
        if self.sort_column == Some(col_idx) {
            match self.sort_direction {
                SortDirection::Descending => label.append(" ▼"),
                SortDirection::Ascending => label.append(" ▲"),
            }
        }
        assert(label@ == self.headers@[col_idx as int]@ + self.sort_marker(col_idx));
        if holds_column(&self.groupby_keys, col_idx) {
            label.append(" [K]");
        } else {
            match self.groupby_aggs.get(&col_idx) {
                Some(func) => {
                    label.append(" [");
                    label.append(symbol_of(*func));
                    label.append("]");
                    assert(label@ =~= self.headers@[col_idx as int]@ + self.sort_marker(col_idx)
                        + (" ["@ + agg_symbol(*func) + "]"@));
                },
                None => {
                    assert(label@ =~= self.headers@[col_idx as int]@ + self.sort_marker(col_idx)
                        + Seq::<char>::empty());
                },
            }
        }
        label
    }

    /// Computes the width that fits a column of the view.
    fn fit_column(&self, column: usize) -> (w: u16)
        requires
            column < self.headers@.len(),
        ensures
            w == self.fitted(column),
    {
        let label = self.header_label(column);
        let header_width = width_of(label.as_str());
        let data_width = match column_text(&self.view, self.headers[column].as_str()) {
            Some(cells) => widest_cell(&cells),
            None => 0,
        };
        if data_width > header_width {
            data_width
        } else {
            header_width
        }
    }

    /// Fits the selected column to its label and its cells. Nothing happens
    /// where no column is selected or the selected one does not exist.
    pub fn autofit_selected_column(&mut self)
        ensures
            fitted_selected(*old(self), *final(self)),
            old(self).wf() ==> final(self).wf(),
    {
        match self.state.selected_column() {
            Some(c) => {
                if c < self.headers.len() && c < self.column_widths.len() {
                    let w = self.fit_column(c);
                    self.column_widths.set(c, w);
                }
            },
            None => {},
        }
    }

    /// Fits every column to its label and its cells.
    pub fn autofit_all_columns(&mut self)
        ensures
            fitted_all(*old(self), *final(self)),
            old(self).wf() ==> final(self).wf(),
    {
        let mut c: usize = 0;
        while c < self.headers.len() && c < self.column_widths.len()
            invariant
                *self == (App { column_widths: self.column_widths, ..*old(self) }),
                self.column_widths@.len() == old(self).column_widths@.len(),
                c <= self.headers@.len(),
                c <= self.column_widths@.len(),
                forall|k: int|
                    0 <= k < c ==> #[trigger] self.column_widths@[k] == old(self).fitted(
                        k as usize,
                    ),
                forall|k: int|
                    c <= k < self.column_widths@.len() ==> #[trigger] self.column_widths@[k]
                        == old(self).column_widths@[k],
            decreases self.headers@.len() - c,
        {
            assert(self.fitted(c) == old(self).fitted(c));
            let w = self.fit_column(c);
            self.column_widths.set(c, w);
            c += 1;
        }
    }
}

} // verus!
