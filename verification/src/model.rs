//! The state of the viewer: the loaded table, the view derived from it and
//! everything the modes of the interface keep between two key presses.
use crate::frame::column_names;
use crate::frame::frame_height;
use crate::frame::frame_names;
use crate::selection::Selection;
use crate::text::texts_view;
use polars::prelude::DataFrame;
use std::collections::HashMap;
use vstd::prelude::*;

verus! {

/// Display width that every column starts with.
pub const DEFAULT_COLUMN_WIDTH: u16 = 15;

/// Where the table is read from.
pub struct Config {
    pub file_path: String,
}

/// What the keys mean at the moment.
#[derive(Clone, Copy, Debug, PartialEq, Eq, Structural)]
pub enum Mode {
    Search,
    Normal,
    Filter,
    PlotPickX,
    Plot,
}

/// How a chart draws its points.
#[derive(Clone, Copy, Debug, PartialEq, Eq, Structural)]
pub enum PlotType {
    Line,
    Bar,
}

/// Direction of the active sort.
#[derive(Clone, Copy, Debug, PartialEq, Eq, Structural)]
pub enum SortDirection {
    Ascending,
    Descending,
}

/// A reduction of the values of one column within a group.
#[derive(Clone, Copy, Debug, PartialEq, Eq, Structural)]
pub enum AggFunc {
    Sum,
    Mean,
    Count,
    Min,
    Max,
}

/// Summary of one column of the view. `mean` and `median` hold the IEEE 754
/// bit pattern of a double-precision number.
pub struct ColumnStats {
    pub count: usize,
    pub min: String,
    pub max: String,
    pub mean: Option<u64>,
    pub median: Option<u64>,
}

/// The viewer.
pub struct App {
    /// The table as it was loaded.
    pub df: DataFrame,
    /// The table after filters, sort and grouping: what the grid shows.
    pub view: DataFrame,
    /// Names of the columns of the view.
    pub headers: Vec<String>,
    pub state: Selection,
    pub should_quit: bool,
    pub file_path: String,
    pub column_widths: Vec<u16>,
    pub mode: Mode,
    pub search_query: String,
    /// Rows of the view that matched the query, in increasing order.
    pub search_results: Vec<usize>,
    pub search_cursor: usize,
    /// Committed filters: a column and the text its cells must contain.
    pub filters: Vec<(usize, String)>,
    pub filter_input: String,
    pub sort_column: Option<usize>,
    pub sort_direction: SortDirection,
    pub show_stats: bool,
    pub show_help: bool,
    pub groupby_keys: Vec<usize>,
    pub groupby_aggs: HashMap<usize, AggFunc>,
    pub groupby_active: bool,
    pub saved_headers: Vec<String>,
    pub saved_column_widths: Vec<u16>,
    pub plot_y_col: Option<usize>,
    pub plot_x_col: Option<usize>,
    pub plot_type: PlotType,
}

impl Config {
    /// Takes the path of the table from the command line: the argument
    /// after the program's name.
    pub fn new(args: Vec<String>) -> (r: Result<Config, &'static str>)
        ensures
            args@.len() >= 2 ==> r is Ok && r->Ok_0.file_path@ == args@[1]@,
            args@.len() < 2 ==> r is Err && r->Err_0@ == "Please provide a valid CSV file path"@,
    {
        if args.len() >= 2 {
            Ok(Config { file_path: args[1].clone() })
        } else {
            Err("Please provide a valid CSV file path")
        }
    }
}

impl Default for ColumnStats {
    fn default() -> (s: ColumnStats)
        ensures
            s.is_blank(),
    {
        ColumnStats { count: 0, min: String::new(), max: String::new(), mean: None, median: None }
    }
}

impl ColumnStats {
    /// The summary of nothing: no rows, empty texts, no numbers.
    pub open spec fn is_blank(self) -> bool {
        &&& self.count == 0
        &&& self.min@.len() == 0
        &&& self.max@.len() == 0
        &&& self.mean is None
        &&& self.median is None
    }
}

/// A list of `n` column widths, each the default.
pub fn default_widths(n: usize) -> (widths: Vec<u16>)
    ensures
        widths@.len() == n,
        forall|i: int| 0 <= i < n ==> widths@[i] == DEFAULT_COLUMN_WIDTH,
{
    let mut widths: Vec<u16> = Vec::new();
    let mut i: usize = 0;
    while i < n
        invariant
            i <= n,
            widths@.len() == i,
            forall|j: int| 0 <= j < i ==> widths@[j] == DEFAULT_COLUMN_WIDTH,
        decreases n - i,
    {
        widths.push(DEFAULT_COLUMN_WIDTH);
        i += 1;
    }
    widths
}

impl App {
    /// The headers name the columns of the view, each column has a width,
    /// outside a grouping the view has the columns of the table, during one
    /// the headers and widths of the table are kept aside, no column is
    /// both a grouping key and an aggregation target, and none is a key
    /// twice.
    pub open spec fn wf(self) -> bool {
        &&& texts_view(self.headers@) == frame_names(self.view)
        &&& self.column_widths@.len() == self.headers@.len()
        &&& !self.groupby_active ==> frame_names(self.df) == frame_names(self.view)
        &&& self.groupby_active ==> {
            &&& texts_view(self.saved_headers@) == frame_names(self.df)
            &&& self.saved_column_widths@.len() == self.saved_headers@.len()
        }
        &&& self.roles_disjoint()
        &&& self.keys_distinct()
    }

    /// No column is both a grouping key and an aggregation target.
    pub open spec fn roles_disjoint(self) -> bool {
        forall|k: usize| self.groupby_keys@.contains(k) ==> !self.groupby_aggs@.contains_key(k)
    }

    /// No column is listed twice among the grouping keys.
    pub open spec fn keys_distinct(self) -> bool {
        forall|i: int, j: int|
            0 <= i < j < self.groupby_keys@.len() ==> self.groupby_keys@[i]
                != self.groupby_keys@[j]
    }

    /// The view has no cell: no row or no column.
    pub open spec fn view_is_empty(self) -> bool {
        frame_height(self.view) == 0 || self.headers@.len() == 0
    }

    /// A viewer on a freshly loaded table: the view is the whole table, no
    /// filter, sort, search or grouping is active, and the first cell is
    /// selected unless the table has none.
    pub fn new(df: DataFrame, file_path: String) -> (app: App)
        ensures
            app.wf(),
            app.df == df,
            app.view == df,
            app.file_path == file_path,
            texts_view(app.headers@) == frame_names(df),
            app.column_widths@.len() == app.headers@.len(),
            forall|i: int|
                0 <= i < app.column_widths@.len() ==> app.column_widths@[i]
                    == DEFAULT_COLUMN_WIDTH,
            app.state == (if frame_height(df) == 0 || frame_names(df).len() == 0 {
                Selection { row: None, column: None }
            } else {
                Selection { row: Some(0usize), column: Some(0usize) }
            }),
            !app.should_quit,
            app.mode == Mode::Normal,
            app.search_query@.len() == 0,
            app.search_results@.len() == 0,
            app.search_cursor == 0,
            app.filters@.len() == 0,
            app.filter_input@.len() == 0,
            app.sort_column is None,
            app.sort_direction == SortDirection::Ascending,
            !app.show_stats,
            !app.show_help,
            app.groupby_keys@.len() == 0,
            app.groupby_aggs@.len() == 0,
            !app.groupby_active,
            app.saved_headers@.len() == 0,
            app.saved_column_widths@.len() == 0,
            app.plot_y_col is None,
            app.plot_x_col is None,
            app.plot_type == PlotType::Line,
    {
        broadcast use vstd::std_specs::hash::group_hash_axioms;

        let headers = column_names(&df);
        let column_count = headers.len();
        let view = df.clone();
        let rows = df.height();
        let mut state = Selection::new();
        if rows > 0 && column_count > 0 {
            state.select(Some(0));
            state.select_column(Some(0));
        }
        assert(texts_view(headers@).len() == headers@.len());
        App {
            df,
            view,
            headers,
            state,
            should_quit: false,
            file_path,
            column_widths: default_widths(column_count),
            mode: Mode::Normal,
            search_query: String::new(),
            search_results: Vec::new(),
            search_cursor: 0,
            filter_input: String::new(),
            filters: Vec::new(),
            sort_column: None,
            sort_direction: SortDirection::Ascending,
            show_stats: false,
            show_help: false,
            groupby_keys: Vec::new(),
            groupby_aggs: HashMap::new(),
            groupby_active: false,
            saved_headers: Vec::new(),
            saved_column_widths: Vec::new(),
            plot_y_col: None,
            plot_x_col: None,
            plot_type: PlotType::Line,
        }
    }

    /// The name of the chart kind.
    pub fn plot_type_label(&self) -> (label: &'static str)
        ensures
            label@ == (match self.plot_type {
                PlotType::Line => "Line"@,
                PlotType::Bar => "Bar"@,
            }),
    {
        match self.plot_type {
            PlotType::Line => "Line",
            PlotType::Bar => "Bar",
        }
    }
}

} // verus!
