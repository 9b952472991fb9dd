//! The selected cell of the grid: a row and a column position, each of
//! which may be absent. Moves are made without knowing the size of the
//! grid; `clamp` then brings the position back inside it.
use vstd::prelude::*;

verus! {

/// Number of rows that one page key moves the selection by.
pub const PAGE_SCROLL_AMOUNT: u16 = 20;

/// The selected row and column of the grid.
#[derive(Clone, Copy, Debug, PartialEq, Eq, Structural)]
pub struct Selection {
    pub row: Option<usize>,
    pub column: Option<usize>,
}

/// The position one step after `at`, or the first one where none is
/// selected; the largest index stays where it is.
pub open spec fn step_forward(at: Option<usize>) -> usize {
    match at {
        Some(i) => if i < usize::MAX {
            (i + 1) as usize
        } else {
            i
        },
        None => 0,
    }
}

/// The position one step before `at`, or the largest index where none is
/// selected; position zero stays where it is.
pub open spec fn step_back(at: Option<usize>) -> usize {
    match at {
        Some(i) => if i > 0 {
            (i - 1) as usize
        } else {
            0
        },
        None => usize::MAX,
    }
}

/// `at` moved forward by `amount`, stopping at the largest index.
pub open spec fn jump_forward(at: Option<usize>, amount: u16) -> usize {
    let from = match at {
        Some(i) => i,
        None => 0,
    };
    if from + amount <= usize::MAX {
        (from + amount) as usize
    } else {
        usize::MAX
    }
}

/// `at` moved back by `amount`, stopping at zero.
pub open spec fn jump_back(at: Option<usize>, amount: u16) -> usize {
    let from = match at {
        Some(i) => i,
        None => 0,
    };
    if from >= amount {
        (from - amount) as usize
    } else {
        0
    }
}

/// A position brought inside `0..count`: absent when `count` is zero, the
/// last index when it lies beyond it.
pub open spec fn clamped(at: Option<usize>, count: usize) -> Option<usize> {
    match at {
        Some(i) => if count == 0 {
            None
        } else if i >= count {
            Some((count - 1) as usize)
        } else {
            Some(i)
        },
        None => None,
    }
}

impl Selection {
    /// Nothing selected.
    pub fn new() -> (s: Selection)
        ensures
            s.row is None,
            s.column is None,
    {
        Selection { row: None, column: None }
    }

    /// The selected row.
    pub fn selected(&self) -> (row: Option<usize>)
        ensures
            row == self.row,
    {
        self.row
    }

    /// The selected column.
    pub fn selected_column(&self) -> (column: Option<usize>)
        ensures
            column == self.column,
    {
        self.column
    }

    /// The selected column, or the first column where none is selected.
    pub open spec fn column_or_first(self) -> usize {
        match self.column {
            Some(c) => c,
            None => 0,
        }
    }

    /// The selected column, or the first column where none is selected.
    pub fn current_column(&self) -> (column: usize)
        ensures
            column == self.column_or_first(),
    {
        match self.column {
            Some(c) => c,
            None => 0,
        }
    }

    /// Selects a row, or none.
    pub fn select(&mut self, index: Option<usize>)
        ensures
            final(self).row == index,
            final(self).column == old(self).column,
    {
        self.row = index;
    }

    /// Selects a column, or none.
    pub fn select_column(&mut self, index: Option<usize>)
        ensures
            final(self).column == index,
            final(self).row == old(self).row,
    {
        self.column = index;
    }

    /// Moves to the next row.
    pub fn select_next(&mut self)
        ensures
            final(self).row == Some(step_forward(old(self).row)),
            final(self).column == old(self).column,
    {
        let next: usize = match self.row {
            Some(i) => if i < usize::MAX {
                i + 1
            } else {
                i
            },
            None => 0,
        };
        self.row = Some(next);
    }

    /// Moves to the previous row.
    pub fn select_previous(&mut self)
        ensures
            final(self).row == Some(step_back(old(self).row)),
            final(self).column == old(self).column,
    {
        let previous: usize = match self.row {
            Some(i) => if i > 0 {
                i - 1
            } else {
                0
            },
            None => usize::MAX,
        };
        self.row = Some(previous);
    }

    /// Moves to the next column.
    pub fn select_next_column(&mut self)
        ensures
            final(self).column == Some(step_forward(old(self).column)),
            final(self).row == old(self).row,
    {
        let next: usize = match self.column {
            Some(i) => if i < usize::MAX {
                i + 1
            } else {
                i
            },
            None => 0,
        };
        self.column = Some(next);
    }

    /// Moves to the previous column.
    pub fn select_previous_column(&mut self)
        ensures
            final(self).column == Some(step_back(old(self).column)),
            final(self).row == old(self).row,
    {
        let previous: usize = match self.column {
            Some(i) => if i > 0 {
                i - 1
            } else {
                0
            },
            None => usize::MAX,
        };
        self.column = Some(previous);
    }

    /// Moves to the first row.
    pub fn select_first(&mut self)
        ensures
            final(self).row == Some(0usize),
            final(self).column == old(self).column,
    {
        self.row = Some(0);
    }

    /// Moves to the last row: the largest index, which `clamp` brings back
    /// to the last row that exists.
    pub fn select_last(&mut self)
        ensures
            final(self).row == Some(usize::MAX),
            final(self).column == old(self).column,
    {
        self.row = Some(usize::MAX);
    }

    /// Moves down by `amount` rows.
    pub fn scroll_down_by(&mut self, amount: u16)
        ensures
            final(self).row == Some(jump_forward(old(self).row, amount)),
            final(self).column == old(self).column,
    {
        let from: usize = match self.row {
            Some(i) => i,
            None => 0,
        };
        let step: usize = amount as usize;
        let to: usize = if from <= usize::MAX - step {
            from + step
        } else {
            usize::MAX
        };
        self.row = Some(to);
    }

    /// Moves up by `amount` rows.
    pub fn scroll_up_by(&mut self, amount: u16)
        ensures
            final(self).row == Some(jump_back(old(self).row, amount)),
            final(self).column == old(self).column,
    {
        let from: usize = match self.row {
            Some(i) => i,
            None => 0,
        };
        let step: usize = amount as usize;
        let to: usize = if from >= step {
            from - step
        } else {
            0
        };
        self.row = Some(to);
    }

    /// The selection lies inside a grid of `rows` rows and `columns`
    /// columns: a selected row is below `rows`, a selected column below
    /// `columns`.
    pub open spec fn within(self, rows: usize, columns: usize) -> bool {
        &&& self.row matches Some(r) ==> r < rows
        &&& self.column matches Some(c) ==> c < columns
    }

    /// Brings the selection back inside a grid of `rows` rows and `columns`
    /// columns.
    pub fn clamp(&mut self, rows: usize, columns: usize)
        ensures
            final(self).row == clamped(old(self).row, rows),
            final(self).column == clamped(old(self).column, columns),
            final(self).within(rows, columns),
            old(self).within(rows, columns) ==> *final(self) == *old(self),
    {
        self.row = bring_inside(self.row, rows);
        self.column = bring_inside(self.column, columns);
    }
}

/// Brings one position inside `0..count`.
pub fn bring_inside(at: Option<usize>, count: usize) -> (r: Option<usize>)
    ensures
        r == clamped(at, count),
{
    match at {
        Some(i) => if count == 0 {
            None
        } else if i >= count {
            Some(count - 1)
        } else {
            Some(i)
        },
        None => None,
    }
}

} // verus!
