//! The status line: one line of text that says where the selection is and
//! what search, filter, grouping or plot is under way.
use crate::frame::frame_height;
use crate::layout::agg_symbol;
use crate::layout::holds_column;
use crate::layout::symbol_of;
use crate::model::AggFunc;
use crate::model::App;
use crate::model::Mode;
use crate::model::PlotType;
use crate::text::decimal;
use crate::text::decimal_text;
use crate::text::join_texts;
use crate::text::joined;
use crate::text::texts_view;
use vstd::prelude::*;
use vstd::string::StringExecFns;

verus! {

/// What the status line is about, for the caller to pick its colours by.
#[derive(Clone, Copy, Debug, PartialEq, Eq, Structural)]
pub enum StatusKind {
    PlotPick,
    Plot,
    Search,
    Filter,
    Grouped,
    GroupSetup,
    Matches,
    Filtered,
    Plain,
}

/// A position counted from one; zero where nothing is selected.
pub open spec fn one_based(at: Option<usize>) -> nat {
    match at {
        Some(i) => (i + 1) as nat,
        None => 0,
    }
}

/// The name of a column, or a question mark where there is no such column.
pub open spec fn name_or_unknown(headers: Seq<String>, column: usize) -> Seq<char> {
    if column < headers.len() {
        headers[column as int]@
    } else {
        "?"@
    }
}

/// A committed filter as the status line shows it.
pub open spec fn filter_entry(headers: Seq<String>, filter: (usize, String)) -> Seq<char> {
    "["@ + name_or_unknown(headers, filter.0) + ": "@ + filter.1@ + "]"@
}

/// The committed filters as the status line shows them.
pub open spec fn filter_entries(headers: Seq<String>, filters: Seq<(usize, String)>) -> Seq<
    Seq<char>,
> {
    Seq::new(filters.len(), |i: int| filter_entry(headers, filters[i]))
}

/// The names of the grouping keys, in the order they were chosen.
pub open spec fn setup_key_names(headers: Seq<String>, keys: Seq<usize>) -> Seq<Seq<char>> {
    Seq::new(keys.len(), |i: int| name_or_unknown(headers, keys[i]))
}

/// The names of those of the first `n` columns that are grouping keys.
pub open spec fn key_names_below(names: Seq<String>, keys: Seq<usize>, n: int) -> Seq<Seq<char>>
    decreases n,
{
    if n <= 0 {
        Seq::empty()
    } else if keys.contains((n - 1) as usize) {
        key_names_below(names, keys, n - 1).push(names[n - 1]@)
    } else {
        key_names_below(names, keys, n - 1)
    }
}

/// An aggregation as the status line shows it: the column and the sign of
/// the aggregation.
pub open spec fn agg_entry(name: Seq<char>, func: AggFunc) -> Seq<char> {
    name + "["@ + agg_symbol(func) + "]"@
}

/// The aggregations on the first `n` columns as the status line shows
/// them.
pub open spec fn agg_entries_below(names: Seq<String>, aggs: Map<usize, AggFunc>, n: int) -> Seq<
    Seq<char>,
>
    decreases n,
{
    if n <= 0 {
        Seq::empty()
    } else if aggs.contains_key((n - 1) as usize) {
        agg_entries_below(names, aggs, n - 1).push(agg_entry(names[n - 1]@, aggs[(n - 1) as usize]))
    } else {
        agg_entries_below(names, aggs, n - 1)
    }
}

/// The name of a chart kind.
pub open spec fn plot_label(kind: PlotType) -> Seq<char> {
    match kind {
        PlotType::Line => "Line"@,
        PlotType::Bar => "Bar"@,
    }
}

impl App {
    /// What the status line is about. In normal mode a grouping that is
    /// shown comes first, then one that is being set up, then the matches
    /// of a search, then the committed filters.
    pub open spec fn status_kind_of(self) -> StatusKind {
        match self.mode {
            Mode::PlotPickX => StatusKind::PlotPick,
            Mode::Plot => StatusKind::Plot,
            Mode::Search => StatusKind::Search,
            Mode::Filter => StatusKind::Filter,
            Mode::Normal => if self.groupby_active {
                StatusKind::Grouped
            } else if self.groupby_keys@.len() > 0 {
                StatusKind::GroupSetup
            } else if self.search_results@.len() > 0 {
                StatusKind::Matches
            } else if self.filters@.len() > 0 {
                StatusKind::Filtered
            } else {
                StatusKind::Plain
            },
        }
    }

    /// Where the selection is: row and column, counted from one, each with
    /// the number there are.
    pub open spec fn position_of(self) -> Seq<char> {
        "Row "@ + decimal(one_based(self.state.row)) + "/"@ + decimal(frame_height(self.view))
            + " | Col "@ + decimal(one_based(self.state.column)) + "/"@ + decimal(
            self.headers@.len(),
        )
    }

    /// The name of the column chosen as the y axis of a plot.
    pub open spec fn y_name_of(self) -> Seq<char> {
        match self.plot_y_col {
            Some(c) => name_or_unknown(self.headers@, c),
            None => "?"@,
        }
    }

    /// The text of the status line.
    pub open spec fn status_of(self) -> Seq<char> {
        match self.status_kind_of() {
            StatusKind::PlotPick => " Y: "@ + self.y_name_of()
                + "  —  navigate to X column and press Enter  (Esc to cancel) "@,
            StatusKind::Plot => " "@ + plot_label(self.plot_type)
                + " chart  |  t toggle line/bar  |  Esc / p to close "@,
            StatusKind::Search => " /"@ + self.search_query@ + "_ "@,
            StatusKind::Filter => " f "@ + self.filter_input@ + "_ "@,
            StatusKind::Grouped => " ◆ GROUPED  By: "@ + joined(
                key_names_below(
                    self.saved_headers@,
                    self.groupby_keys@,
                    self.saved_headers@.len() as int,
                ),
                ", "@,
            ) + " | Agg: "@ + joined(
                agg_entries_below(
                    self.saved_headers@,
                    self.groupby_aggs@,
                    self.saved_headers@.len() as int,
                ),
                " "@,
            ) + " | "@ + decimal(frame_height(self.view)) + " rows "@,
            StatusKind::GroupSetup => " GroupBy: "@ + joined(
                setup_key_names(self.headers@, self.groupby_keys@),
                ", "@,
            ) + " | press B to execute "@,
            StatusKind::Matches => " ["@ + decimal((self.search_cursor + 1) as nat) + "/"@
                + decimal(self.search_results@.len()) + "]  "@ + self.search_query@ + " "@,
            StatusKind::Filtered => " "@ + joined(
                filter_entries(self.headers@, self.filters@),
                " "@,
            ) + " | "@ + self.position_of() + " | "@ + self.file_path@ + " "@,
            StatusKind::Plain => " "@ + self.position_of() + " | "@ + self.file_path@
                + "  ? help "@,
        }
    }

    /// Says what the status line is about.
    pub fn status_kind(&self) -> (kind: StatusKind)
        ensures
            kind == self.status_kind_of(),
    {
        match self.mode {
            Mode::PlotPickX => StatusKind::PlotPick,
            Mode::Plot => StatusKind::Plot,
            Mode::Search => StatusKind::Search,
            Mode::Filter => StatusKind::Filter,
            Mode::Normal => {
                if self.groupby_active {
                    StatusKind::Grouped
                } else if self.groupby_keys.len() > 0 {
                    StatusKind::GroupSetup
                } else if self.search_results.len() > 0 {
                    StatusKind::Matches
                } else if self.filters.len() > 0 {
                    StatusKind::Filtered
                } else {
                    StatusKind::Plain
                }
            },
        }
    }

    fn header_or_unknown(&self, column: usize) -> (name: &str)
        ensures
            name@ == name_or_unknown(self.headers@, column),
    {
        if column < self.headers.len() {
            self.headers[column].as_str()
        } else {
            "?"
        }
    }

    fn position_text(&self) -> (text: String)
        ensures
            text@ == self.position_of(),
    {
        let row: u128 = match self.state.row {
            Some(i) => (i as u128) + 1,
            None => 0,
        };
        let column: u128 = match self.state.column {
            Some(i) => (i as u128) + 1,
            None => 0,
        };
        let mut text = String::from_str("Row ");
        text.append(decimal_text(row).as_str());
        text.append("/");
        text.append(decimal_text(self.view.height() as u128).as_str());
        text.append(" | Col ");
        text.append(decimal_text(column).as_str());
        text.append("/");
        text.append(decimal_text(self.headers.len() as u128).as_str());
        text
    }

    fn filter_summary(&self) -> (text: String)
        ensures
            text@ == joined(filter_entries(self.headers@, self.filters@), " "@),
    {
        let mut parts: Vec<String> = Vec::new();
        let mut i: usize = 0;
        while i < self.filters.len()
            invariant
                i <= self.filters@.len(),
                parts@.len() == i,
                forall|k: int|
                    0 <= k < i ==> (#[trigger] parts@[k])@ == filter_entry(
                        self.headers@,
                        self.filters@[k],
                    ),
            decreases self.filters@.len() - i,
        {
            let mut part = String::from_str("[");
            part.append(self.header_or_unknown(self.filters[i].0));
            part.append(": ");
            part.append(self.filters[i].1.as_str());
            part.append("]");
            parts.push(part);
            i += 1;
        }
        assert(texts_view(parts@) =~= filter_entries(self.headers@, self.filters@));
        join_texts(&parts, " ")
    }

    fn setup_summary(&self) -> (text: String)
        ensures
            text@ == joined(setup_key_names(self.headers@, self.groupby_keys@), ", "@),
    {
        let mut parts: Vec<String> = Vec::new();
        let mut i: usize = 0;
        while i < self.groupby_keys.len()
            invariant
                i <= self.groupby_keys@.len(),
                parts@.len() == i,
                forall|k: int|
                    0 <= k < i ==> (#[trigger] parts@[k])@ == name_or_unknown(
                        self.headers@,
                        self.groupby_keys@[k],
                    ),
            decreases self.groupby_keys@.len() - i,
        {
            parts.push(String::from_str(self.header_or_unknown(self.groupby_keys[i])));
            i += 1;
        }
        assert(texts_view(parts@) =~= setup_key_names(self.headers@, self.groupby_keys@));
        join_texts(&parts, ", ")
    }

    fn grouped_keys_summary(&self) -> (text: String)
        ensures
            text@ == joined(
                key_names_below(
                    self.saved_headers@,
                    self.groupby_keys@,
                    self.saved_headers@.len() as int,
                ),
                ", "@,
            ),
    {
        let mut parts: Vec<String> = Vec::new();
        let mut i: usize = 0;
        while i < self.saved_headers.len()
            invariant
                i <= self.saved_headers@.len(),
                texts_view(parts@) == key_names_below(
                    self.saved_headers@,
                    self.groupby_keys@,
                    i as int,
                ),
            decreases self.saved_headers@.len() - i,
        {
            if holds_column(&self.groupby_keys, i) {
                let ghost before = texts_view(parts@);
                parts.push(self.saved_headers[i].clone());
                assert(texts_view(parts@) =~= before.push(self.saved_headers@[i as int]@));
            }
            i += 1;
        }
        join_texts(&parts, ", ")
    }

    fn grouped_aggs_summary(&self) -> (text: String)
        ensures
            text@ == joined(
                agg_entries_below(
                    self.saved_headers@,
                    self.groupby_aggs@,
                    self.saved_headers@.len() as int,
                ),
                " "@,
            ),
    {
        broadcast use vstd::std_specs::hash::group_hash_axioms;

        let mut parts: Vec<String> = Vec::new();
        let mut i: usize = 0;
        while i < self.saved_headers.len()
            invariant
                i <= self.saved_headers@.len(),
                texts_view(parts@) == agg_entries_below(
                    self.saved_headers@,
                    self.groupby_aggs@,
                    i as int,
                ),
            decreases self.saved_headers@.len() - i,
        {
            match self.groupby_aggs.get(&i) {
                Some(func) => {
                    let ghost before = texts_view(parts@);
                    let mut part = self.saved_headers[i].clone();
                    part.append("[");
                    part.append(symbol_of(*func));
                    part.append("]");
                    parts.push(part);
                    assert(texts_view(parts@) =~= before.push(
                        agg_entry(self.saved_headers@[i as int]@, *func),
                    ));
                },
                None => {},
            }
            i += 1;
        }
        join_texts(&parts, " ")
    }

    /// Writes the status line.
    pub fn status_text(&self) -> (text: String)
        ensures
            text@ == self.status_of(),
    {
        match self.status_kind() {
            StatusKind::PlotPick => {
                let y_name = match self.plot_y_col {
                    Some(c) => self.header_or_unknown(c),
                    None => "?",
                };
                let mut text = String::from_str(" Y: ");
                text.append(y_name);
                text.append("  —  navigate to X column and press Enter  (Esc to cancel) ");
                text
            },
            StatusKind::Plot => {
                let mut text = String::from_str(" ");
                text.append(self.plot_type_label());
                text.append(" chart  |  t toggle line/bar  |  Esc / p to close ");
                text
            },
            StatusKind::Search => {
                let mut text = String::from_str(" /");
                text.append(self.search_query.as_str());
                text.append("_ ");
                text
            },
            StatusKind::Filter => {
                let mut text = String::from_str(" f ");
                text.append(self.filter_input.as_str());
                text.append("_ ");
                text
            },
            StatusKind::Grouped => {
                let mut text = String::from_str(" ◆ GROUPED  By: ");
                text.append(self.grouped_keys_summary().as_str());
                text.append(" | Agg: ");
                text.append(self.grouped_aggs_summary().as_str());
                text.append(" | ");
                text.append(decimal_text(self.view.height() as u128).as_str());
                text.append(" rows ");
                text
            },
            StatusKind::GroupSetup => {
                let mut text = String::from_str(" GroupBy: ");
                text.append(self.setup_summary().as_str());
                text.append(" | press B to execute ");
                text
            },
            StatusKind::Matches => {
                let mut text = String::from_str(" [");
                text.append(decimal_text((self.search_cursor as u128) + 1).as_str());
                text.append("/");
                text.append(decimal_text(self.search_results.len() as u128).as_str());
                text.append("]  ");
                text.append(self.search_query.as_str());
                text.append(" ");
                text
            },
            StatusKind::Filtered => {
                let mut text = String::from_str(" ");
                text.append(self.filter_summary().as_str());
                text.append(" | ");
                text.append(self.position_text().as_str());
                text.append(" | ");
                text.append(self.file_path.as_str());
                text.append(" ");
                text
            },
            StatusKind::Plain => {
                let mut text = String::from_str(" ");
                text.append(self.position_text().as_str());
                text.append(" | ");
                text.append(self.file_path.as_str());
                text.append("  ? help ");
                text
            },
        }
    }
}

} // verus!
