//! Plot data: two columns of the view turned into points, the labels of a
//! categorical axis, and the choice of the labels that fit under a chart.
//! Numbers are carried as the bit patterns of double-precision values.
use crate::frame::column_kind;
use crate::frame::column_numbers;
use crate::frame::column_text;
use crate::frame::frame_height;
use crate::frame::frame_kind;
use crate::frame::frame_numbers;
use crate::frame::frame_text;
use crate::frame::ColumnKind;
use crate::model::App;
use crate::text::column_view;
use crate::text::display_width;
use crate::text::texts_view;
use crate::text::width_of;
use polars::prelude::DataFrame;
use vstd::prelude::*;

verus! {

/// One point of a series. `y` is the bit pattern of a double-precision
/// number. On a numeric axis `x` is one as well; on a categorical axis it
/// is the row of the view that the point comes from.
#[derive(Clone, Copy, Debug, PartialEq, Eq, Structural)]
pub struct PlotPoint {
    pub x: u64,
    pub y: u64,
}

/// A label that fits under a chart: which label it is, and how many cells
/// to the right of the chart's first column it stands.
#[derive(Clone, Copy, Debug, PartialEq, Eq, Structural)]
pub struct LabelSlot {
    pub label: usize,
    pub offset: u16,
}

/// A column of this kind holds numbers.
pub open spec fn is_numeric(kind: ColumnKind) -> bool {
    kind != ColumnKind::Other && kind != ColumnKind::Text
}

/// Does a column of this kind hold numbers?
pub fn is_numeric_dtype(kind: ColumnKind) -> (numeric: bool)
    ensures
        numeric == is_numeric(kind),
{
    match kind {
        ColumnKind::Other => false,
        ColumnKind::Text => false,
        _ => true,
    }
}

/// The numbers of a column of a frame; `None` where the column does not
/// exist or does not hold numbers.
pub open spec fn numeric_cells(frame: DataFrame, name: Seq<char>) -> Option<Seq<Option<u64>>> {
    match frame_kind(frame, name) {
        Some(kind) => if is_numeric(kind) {
            frame_numbers(frame, name)
        } else {
            None
        },
        None => None,
    }
}

/// Reads the numbers of a column of a frame: one cell for each row.
pub fn series_numbers(frame: &DataFrame, name: &str) -> (cells: Option<Vec<Option<u64>>>)
    ensures
        match cells {
            Some(c) => numeric_cells(*frame, name@) == Some(c@) && c@.len() == frame_height(
                *frame,
            ),
            None => numeric_cells(*frame, name@) is None,
        },
{
    match column_kind(frame, name) {
        Some(kind) => {
            if is_numeric_dtype(kind) {
                column_numbers(frame, name)
            } else {
                None
            }
        },
        None => None,
    }
}

/// The points of the first `n` rows of two numeric columns: one for each
/// row that has a value in both, in row order.
pub open spec fn paired_below(xs: Seq<Option<u64>>, ys: Seq<Option<u64>>, n: int) -> Seq<PlotPoint>
    decreases n,
{
    if n <= 0 {
        Seq::empty()
    } else {
        let rest = paired_below(xs, ys, n - 1);
        match (xs[n - 1], ys[n - 1]) {
            (Some(x), Some(y)) => rest.push(PlotPoint { x, y }),
            _ => rest,
        }
    }
}

/// The points of the first `n` rows of one numeric column against the row
/// number: one for each row that has a value, in row order.
pub open spec fn indexed_below(ys: Seq<Option<u64>>, n: int) -> Seq<PlotPoint>
    decreases n,
{
    if n <= 0 {
        Seq::empty()
    } else {
        let rest = indexed_below(ys, n - 1);
        match ys[n - 1] {
            Some(y) => rest.push(PlotPoint { x: (n - 1) as u64, y }),
            None => rest,
        }
    }
}

/// The smaller of two lengths.
pub open spec fn shorter(a: nat, b: nat) -> int {
    if a <= b {
        a as int
    } else {
        b as int
    }
}

/// The series that two columns give. With numbers on both axes, the points
/// of the rows that have both values, on a numeric axis. With numbers on
/// the y axis only, the values against their row numbers, on a categorical
/// axis. Without numbers on the y axis, no points.
pub open spec fn series_of(xs: Option<Seq<Option<u64>>>, ys: Option<Seq<Option<u64>>>) -> (
    Seq<PlotPoint>,
    bool,
) {
    match (xs, ys) {
        (Some(x), Some(y)) => (paired_below(x, y, shorter(x.len(), y.len())), false),
        (None, Some(y)) => (indexed_below(y, y.len() as int), true),
        _ => (Seq::empty(), false),
    }
}

/// With no value missing, the rows of two numeric columns give one point
/// each, in row order, and a numeric column against the row numbers gives
/// the points `(0, y0), (1, y1), ...`; with values missing, the points are
/// those of the rows where none is, in row order.
pub proof fn lemma_series_points(xs: Seq<Option<u64>>, ys: Seq<Option<u64>>, n: int)
    requires
        0 <= n <= xs.len(),
        n <= ys.len(),
        n <= u64::MAX,
    ensures
        paired_below(xs, ys, n).len() <= n,
        indexed_below(ys, n).len() <= n,
        (forall|i: int| 0 <= i < n ==> (#[trigger] xs[i]) is Some && (#[trigger] ys[i]) is Some)
            ==> {
            &&& paired_below(xs, ys, n).len() == n
            &&& forall|i: int|
                0 <= i < n ==> #[trigger] paired_below(xs, ys, n)[i] == (PlotPoint {
                    x: xs[i]->Some_0,
                    y: ys[i]->Some_0,
                })
        },
        (forall|i: int| 0 <= i < n ==> (#[trigger] ys[i]) is Some) ==> {
            &&& indexed_below(ys, n).len() == n
            &&& forall|i: int|
                0 <= i < n ==> #[trigger] indexed_below(ys, n)[i] == (PlotPoint {
                    x: i as u64,
                    y: ys[i]->Some_0,
                })
        },
        forall|k: int|
            0 <= k < paired_below(xs, ys, n).len() ==> exists|i: int|
                0 <= i < n && xs[i] == Some((#[trigger] paired_below(xs, ys, n)[k]).x) && ys[i]
                    == Some(paired_below(xs, ys, n)[k].y),
        forall|k: int|
            0 <= k < indexed_below(ys, n).len() ==> (#[trigger] indexed_below(ys, n)[k]).x < n
                && ys[indexed_below(ys, n)[k].x as int] == Some(indexed_below(ys, n)[k].y),
    decreases n,
{
    if n > 0 {
        lemma_series_points(xs, ys, n - 1);
        let pp = paired_below(xs, ys, n - 1);
        let pc = paired_below(xs, ys, n);
        let ip = indexed_below(ys, n - 1);
        let ic = indexed_below(ys, n);
        assert forall|k: int| 0 <= k < pc.len() implies exists|i: int|
            0 <= i < n && xs[i] == Some((#[trigger] pc[k]).x) && ys[i] == Some(pc[k].y) by {
            if k < pp.len() {
                assert(pc[k] == pp[k]);
                let i = choose|i: int|
                    0 <= i < n - 1 && xs[i] == Some(pp[k].x) && ys[i] == Some(pp[k].y);
                assert(0 <= i < n && xs[i] == Some(pc[k].x) && ys[i] == Some(pc[k].y));
            } else {
                assert(xs[n - 1] == Some(pc[k].x) && ys[n - 1] == Some(pc[k].y));
            }
        }
        assert forall|k: int| 0 <= k < ic.len() implies (#[trigger] ic[k]).x < n
            && ys[ic[k].x as int] == Some(ic[k].y) by {
            if k < ip.len() {
                assert(ic[k] == ip[k]);
            }
        }
        if forall|i: int| 0 <= i < n ==> (#[trigger] xs[i]) is Some && (#[trigger] ys[i]) is Some {
            assert forall|i: int| 0 <= i < n implies #[trigger] pc[i] == (PlotPoint {
                x: xs[i]->Some_0,
                y: ys[i]->Some_0,
            }) by {
                if i < n - 1 {
                    assert(pc[i] == pp[i]);
                }
            }
        }
        if forall|i: int| 0 <= i < n ==> (#[trigger] ys[i]) is Some {
            assert forall|i: int| 0 <= i < n implies #[trigger] ic[i] == (PlotPoint {
                x: i as u64,
                y: ys[i]->Some_0,
            }) by {
                if i < n - 1 {
                    assert(ic[i] == ip[i]);
                }
            }
        }
    }
}

/// Pairs the values of two numeric columns, row by row.
pub fn pair_points(xs: &Vec<Option<u64>>, ys: &Vec<Option<u64>>) -> (points: Vec<PlotPoint>)
    ensures
        points@ == paired_below(xs@, ys@, shorter(xs@.len(), ys@.len())),
{
    let n = if xs.len() <= ys.len() {
        xs.len()
    } else {
        ys.len()
    };
    let mut points: Vec<PlotPoint> = Vec::new();
    let mut i: usize = 0;
    while i < n
        invariant
            i <= n,
            n == shorter(xs@.len(), ys@.len()),
            points@ == paired_below(xs@, ys@, i as int),
        decreases n - i,
    {
        match (xs[i], ys[i]) {
            (Some(x), Some(y)) => {
                points.push(PlotPoint { x, y });
            },
            _ => {},
        }
        i += 1;
    }
    points
}

/// Sets the values of a numeric column against their row numbers.
pub fn index_points(ys: &Vec<Option<u64>>) -> (points: Vec<PlotPoint>)
    ensures
        points@ == indexed_below(ys@, ys@.len() as int),
{
    let mut points: Vec<PlotPoint> = Vec::new();
    let mut i: usize = 0;
    while i < ys.len()
        invariant
            i <= ys@.len(),
            points@ == indexed_below(ys@, i as int),
        decreases ys@.len() - i,
    {
        match ys[i] {
            Some(y) => {
                points.push(PlotPoint { x: i as u64, y });
            },
            None => {},
        }
        i += 1;
    }
    points
}

/// The series that two columns of numbers give.
pub fn series_from(xs: Option<Vec<Option<u64>>>, ys: Option<Vec<Option<u64>>>) -> (r: (
    Vec<PlotPoint>,
    bool,
))
    ensures
        (r.0@, r.1) == series_of(
            match xs {
                Some(x) => Some(x@),
                None => None,
            },
            match ys {
                Some(y) => Some(y@),
                None => None,
            },
        ),
{
    match (xs, ys) {
        (Some(x), Some(y)) => (pair_points(&x, &y), false),
        (None, Some(y)) => (index_points(&y), true),
        _ => (Vec::new(), false),
    }
}

/// The text of the first `n` labels of a categorical axis: the cell of each
/// row, empty for a null cell and for a row that the column does not have.
pub open spec fn labels_of(cells: Seq<Option<Seq<char>>>, n: nat) -> Seq<Seq<char>> {
    Seq::new(
        n,
        |i: int|
            if i < cells.len() {
                match cells[i] {
                    Some(text) => text,
                    None => Seq::empty(),
                }
            } else {
                Seq::empty()
            },
    )
}

/// The label that `slot` shows when `labels` labels share `slots` cells:
/// every label where they all fit, else labels spread evenly from the first
/// to the last.
pub open spec fn sampled_label(labels: int, slots: int, slot: int) -> int {
    if labels <= slots {
        slot
    } else if slots <= 1 {
        0
    } else {
        slot * (labels - 1) / (slots - 1)
    }
}

/// The number of labels shown when `labels` labels share `slots` cells.
pub open spec fn shown_labels(labels: int, slots: int) -> int {
    if labels <= slots {
        labels
    } else {
        slots
    }
}

/// The cell, counted from the first cell of the chart, where label number
/// `slot` of `shown` stands in a chart `width` cells wide: the labels are
/// spread evenly from the first cell to the last.
pub open spec fn slot_offset(shown: int, width: int, slot: int) -> int {
    if shown <= 1 {
        0
    } else {
        slot * (width - 1) / (shown - 1)
    }
}

/// A sampled label is one of the labels, the first slot shows the first
/// label and the last slot the last one, and later slots never show
/// earlier labels.
pub proof fn lemma_sampled_label(labels: int, slots: int, slot: int)
    requires
        0 <= slot < shown_labels(labels, slots),
    ensures
        0 <= sampled_label(labels, slots, slot) < labels,
        sampled_label(labels, slots, 0) == 0,
        labels > slots > 1 ==> sampled_label(labels, slots, slots - 1) == labels - 1,
        slot + 1 < shown_labels(labels, slots) ==> sampled_label(labels, slots, slot)
            <= sampled_label(labels, slots, slot + 1),
{
    if labels > slots && slots > 1 {
        let d = slots - 1;
        let m = labels - 1;
        assert(0 <= slot * m <= d * m) by (nonlinear_arith)
            requires
                0 <= slot <= d,
                m >= 0,
        ;
        assert(slot * m / d <= m && 0 <= slot * m / d) by (nonlinear_arith)
            requires
                0 <= slot * m <= d * m,
                d > 0,
        ;
        assert(0 * m / d == 0) by (nonlinear_arith)
            requires
                d > 0,
        ;
        assert(d * m / d == m) by (nonlinear_arith)
            requires
                d > 0,
        ;
        assert(slot * m / d <= (slot + 1) * m / d) by (nonlinear_arith)
            requires
                slot >= 0,
                m >= 0,
                d > 0,
        ;
    }
}

/// A label stands inside the chart.
pub proof fn lemma_slot_offset(shown: int, width: int, slot: int)
    requires
        0 <= slot < shown,
        1 <= width,
    ensures
        0 <= slot_offset(shown, width, slot) < width,
{
    if shown > 1 {
        let d = shown - 1;
        let m = width - 1;
        assert(0 <= slot * m <= d * m) by (nonlinear_arith)
            requires
                0 <= slot <= d,
                m >= 0,
        ;
        assert(slot * m / d <= m && 0 <= slot * m / d) by (nonlinear_arith)
            requires
                0 <= slot * m <= d * m,
                d > 0,
        ;
    }
}

/// Chooses the labels that fit under a chart `plot_width` cells wide, and
/// the cell where each stands.
pub fn label_slots(labels: usize, plot_width: u16) -> (slots: Vec<LabelSlot>)
    ensures
        plot_width == 0 ==> slots@.len() == 0,
        plot_width > 0 ==> slots@.len() == shown_labels(labels as int, plot_width as int),
        forall|i: int|
            0 <= i < slots@.len() ==> {
                &&& (#[trigger] slots@[i]).label == sampled_label(
                    labels as int,
                    plot_width as int,
                    i,
                )
                &&& slots@[i].offset == slot_offset(slots@.len() as int, plot_width as int, i)
                &&& slots@[i].label < labels
                &&& slots@[i].offset < plot_width
            },
{
    let mut slots: Vec<LabelSlot> = Vec::new();
    if plot_width == 0 {
        return slots;
    }
    let width: usize = plot_width as usize;
    let shown: usize = if labels <= width {
        labels
    } else {
        width
    };
    let mut i: usize = 0;
    while i < shown
        invariant
            i <= shown,
            plot_width > 0,
            width == plot_width,
            shown == shown_labels(labels as int, plot_width as int),
            shown <= 65535,
            slots@.len() == i,
            forall|k: int|
                0 <= k < i ==> {
                    &&& (#[trigger] slots@[k]).label == sampled_label(
                        labels as int,
                        plot_width as int,
                        k,
                    )
                    &&& slots@[k].offset == slot_offset(shown as int, plot_width as int, k)
                    &&& slots@[k].label < labels
                    &&& slots@[k].offset < plot_width
                },
        decreases shown - i,
    {
        proof {
            lemma_sampled_label(labels as int, plot_width as int, i as int);
            lemma_slot_offset(shown as int, plot_width as int, i as int);
        }
        let label: usize = if labels <= width {
            i
        } else if width <= 1 {
            0
        } else {
            assert(0 <= (i as int) * ((labels - 1) as int) <= 65535 * 0xFFFF_FFFF_FFFF_FFFF)
                by (nonlinear_arith)
                requires
                    0 <= i <= 65535,
                    0 <= labels - 1 <= 0xFFFF_FFFF_FFFF_FFFF,
            ;
            let wide: u128 = (i as u128) * ((labels - 1) as u128);
            (wide / ((width - 1) as u128)) as usize
        };
        let offset: u16 = if shown <= 1 {
            0
        } else {
            assert(0 <= (i as int) * ((width - 1) as int) <= 65535 * 65535) by (nonlinear_arith)
                requires
                    0 <= i <= 65535,
                    0 <= width - 1 <= 65535,
            ;
            let wide: u64 = (i as u64) * ((width - 1) as u64);
            (wide / ((shown - 1) as u64)) as u16
        };
        slots.push(LabelSlot { label, offset });
        i += 1;
    }
    slots
}

/// The height of the strip of upright labels: the length of the longest
/// label.
pub open spec fn tallest_below(labels: Seq<Seq<char>>, n: int) -> int
    decreases n,
{
    if n <= 0 {
        0
    } else {
        let rest = tallest_below(labels, n - 1);
        if display_width(labels[n - 1]) > rest {
            display_width(labels[n - 1])
        } else {
            rest
        }
    }
}

/// Measures the longest label.
pub fn tallest_label(labels: &Vec<String>) -> (h: u16)
    ensures
        h == tallest_below(texts_view(labels@), labels@.len() as int),
{
    let mut h: u16 = 0;
    let mut i: usize = 0;
    while i < labels.len()
        invariant
            i <= labels@.len(),
            h == tallest_below(texts_view(labels@), i as int),
        decreases labels@.len() - i,
    {
        let len = width_of(labels[i].as_str());
        if len > h {
            h = len;
        }
        i += 1;
    }
    h
}

/// Copies the first `n` labels out of a column; rows that the column does
/// not have, and null cells, give empty labels.
pub fn labels_from(cells: &Vec<Option<String>>, n: usize) -> (labels: Vec<String>)
    ensures
        texts_view(labels@) == labels_of(column_view(cells@), n as nat),
{
    let mut labels: Vec<String> = Vec::new();
    let mut i: usize = 0;
    while i < n
        invariant
            i <= n,
            labels@.len() == i,
            forall|k: int|
                0 <= k < i ==> (#[trigger] labels@[k])@ == labels_of(
                    column_view(cells@),
                    n as nat,
                )[k],
        decreases n - i,
    {
        let label = if i < cells.len() {
            match &cells[i] {
                Some(text) => text.clone(),
                None => String::new(),
            }
        } else {
            String::new()
        };
        labels.push(label);
        i += 1;
    }
    assert(texts_view(labels@) =~= labels_of(column_view(cells@), n as nat));
    labels
}

impl App {
    /// The numbers of a column of the view; `None` where the column does
    /// not exist or does not hold numbers.
    pub open spec fn plot_cells(self, column: usize) -> Option<Seq<Option<u64>>> {
        if column < self.headers@.len() {
            numeric_cells(self.view, self.headers@[column as int]@)
        } else {
            None
        }
    }

    /// The labels of the first `n_points` rows of a column of the view;
    /// none where there is no point, no such column or no text in it.
    pub open spec fn x_labels_of(self, x_idx: usize, n_points: usize) -> Seq<Seq<char>> {
        if n_points == 0 || x_idx >= self.headers@.len() {
            Seq::empty()
        } else {
            match frame_text(self.view, self.headers@[x_idx as int]@) {
                Some(cells) => labels_of(cells, n_points as nat),
                None => Seq::empty(),
            }
        }
    }

    fn plot_column(&self, column: usize) -> (cells: Option<Vec<Option<u64>>>)
        ensures
            match cells {
                Some(c) => self.plot_cells(column) == Some(c@),
                None => self.plot_cells(column) is None,
            },
    {
        if column < self.headers.len() {
            series_numbers(&self.view, self.headers[column].as_str())
        } else {
            None
        }
    }

    /// Reads the cells of a column of the view as the grid shows them: one
    /// text for each row, empty for a null cell.
    pub fn column_cells(&self, column: usize) -> (cells: Vec<String>)
        ensures
            texts_view(cells@) == self.x_labels_of(column, frame_height(self.view) as usize),
    {
        self.collect_all_x_labels(column, self.view.height())
    }

    /// Reads the labels of a categorical axis from a column of the view.
    pub fn collect_all_x_labels(&self, x_idx: usize, n_points: usize) -> (labels: Vec<String>)
        ensures
            texts_view(labels@) == self.x_labels_of(x_idx, n_points),
    {
        if n_points == 0 || x_idx >= self.headers.len() {
            let none: Vec<String> = Vec::new();
            assert(texts_view(none@) =~= Seq::<Seq<char>>::empty());
            return none;
        }
        match column_text(&self.view, self.headers[x_idx].as_str()) {
            Some(cells) => labels_from(&cells, n_points),
            None => {
                let none: Vec<String> = Vec::new();
                assert(texts_view(none@) =~= Seq::<Seq<char>>::empty());
                none
            },
        }
    }
}

/// Turns two columns of the view into the points of a chart, and says
/// whether the x axis is categorical.
pub fn extract_plot_data(app: &App, x_idx: usize, y_idx: usize) -> (r: (Vec<PlotPoint>, bool))
    ensures
        (r.0@, r.1) == series_of(app.plot_cells(x_idx), app.plot_cells(y_idx)),
{
    let xs = app.plot_column(x_idx);
    let ys = app.plot_column(y_idx);
    series_from(xs, ys)
}

/// Turns two columns of the view into the points of a chart, and says
/// whether the x axis is categorical.
pub fn extract_plot_data_pub(app: &App, x_idx: usize, y_idx: usize) -> (r: (
    Vec<PlotPoint>,
    bool,
))
    ensures
        (r.0@, r.1) == series_of(app.plot_cells(x_idx), app.plot_cells(y_idx)),
{
    extract_plot_data(app, x_idx, y_idx)
}

} // verus!
