//! Search: the rows of the view whose cell in the selected column contains
//! the query, compared without regard to case.
use crate::frame::column_text;
use crate::frame::frame_height;
use crate::frame::frame_text;
use crate::model::App;
use crate::text::cell_matches;
use crate::text::column_view;
use crate::text::text_matches;
use crate::text::to_lowercase;
use vstd::prelude::*;

verus! {

/// The rows among the first `n` of a column whose cell contains `query`, in
/// increasing order.
pub open spec fn hits_below(cells: Seq<Option<Seq<char>>>, query: Seq<char>, n: int) -> Seq<usize>
    decreases n,
{
    if n <= 0 {
        Seq::empty()
    } else if cell_matches(cells[n - 1], query) {
        hits_below(cells, query, n - 1).push((n - 1) as usize)
    } else {
        hits_below(cells, query, n - 1)
    }
}

/// The rows of a column whose cell contains `query`, in increasing order.
pub open spec fn search_hits(cells: Seq<Option<Seq<char>>>, query: Seq<char>) -> Seq<usize> {
    hits_below(cells, query, cells.len() as int)
}

/// What `hits_below` holds: rows below `n` that match, each once, in
/// increasing order, and every such row.
pub proof fn lemma_hits_below(cells: Seq<Option<Seq<char>>>, query: Seq<char>, n: int)
    requires
        0 <= n <= cells.len() <= usize::MAX,
    ensures
        forall|k: int|
            0 <= k < hits_below(cells, query, n).len() ==> {
                &&& (#[trigger] hits_below(cells, query, n)[k]) < n
                &&& cell_matches(cells[hits_below(cells, query, n)[k] as int], query)
            },
        forall|i: int|
            0 <= i < n && cell_matches(#[trigger] cells[i], query) ==> hits_below(
                cells,
                query,
                n,
            ).contains(i as usize),
        forall|a: int, b: int|
            0 <= a < b < hits_below(cells, query, n).len() ==> (#[trigger] hits_below(
                cells,
                query,
                n,
            )[a]) < (#[trigger] hits_below(cells, query, n)[b]),
        hits_below(cells, query, n).len() <= n,
    decreases n,
{
    if n > 0 {
        lemma_hits_below(cells, query, n - 1);
        let prev = hits_below(cells, query, n - 1);
        let cur = hits_below(cells, query, n);
        if cell_matches(cells[n - 1], query) {
            assert(cur == prev.push((n - 1) as usize));
            assert(cur[prev.len() as int] == (n - 1) as usize);
            assert forall|i: int|
                0 <= i < n && cell_matches(#[trigger] cells[i], query) implies cur.contains(
                i as usize,
            ) by {
                if i < n - 1 {
                    let k = choose|k: int| 0 <= k < prev.len() && prev[k] == i as usize;
                    assert(cur[k] == i as usize);
                } else {
                    assert(cur[prev.len() as int] == i as usize);
                }
            }
        } else {
            assert(cur == prev);
        }
    }
}

/// Every search hit is a row of the column whose cell contains the query
/// when both are compared in lowercase; no such row is left out; and the
/// hits are listed in increasing order, each once.
pub proof fn lemma_search_hits_exact(cells: Seq<Option<Seq<char>>>, query: Seq<char>)
    requires
        cells.len() <= usize::MAX,
    ensures
        forall|k: int|
            0 <= k < search_hits(cells, query).len() ==> {
                &&& (#[trigger] search_hits(cells, query)[k]) < cells.len()
                &&& cell_matches(cells[search_hits(cells, query)[k] as int], query)
            },
        forall|i: int|
            0 <= i < cells.len() && cell_matches(#[trigger] cells[i], query) ==> search_hits(
                cells,
                query,
            ).contains(i as usize),
        forall|a: int, b: int|
            0 <= a < b < search_hits(cells, query).len() ==> (#[trigger] search_hits(
                cells,
                query,
            )[a]) < (#[trigger] search_hits(cells, query)[b]),
{
    lemma_hits_below(cells, query, cells.len() as int);
}

/// Finds the rows of a column whose cell contains `query`, compared without
/// regard to case.
pub fn find_matches(cells: &Vec<Option<String>>, query: &str) -> (hits: Vec<usize>)
    ensures
        hits@ == search_hits(column_view(cells@), query@),
{
    let lower_query = to_lowercase(query);
    let mut hits: Vec<usize> = Vec::new();
    let mut i: usize = 0;
    while i < cells.len()
        invariant
            i <= cells@.len(),
            lower_query@ == crate::text::lowercase(query@),
            hits@ == hits_below(column_view(cells@), query@, i as int),
        decreases cells@.len() - i,
    {
        let found = match &cells[i] {
            Some(text) => text_matches(text.as_str(), lower_query.as_str()),
            None => false,
        };
        assert(found == cell_matches(column_view(cells@)[i as int], query@));
        if found {
            hits.push(i);
        }
        i += 1;
    }
    hits
}

/// What a search does: the results are the rows of the view whose cell in
/// the selected column contains the query, the cursor stands on the first,
/// and nothing else changes.
pub open spec fn searched(before: App, after: App) -> bool {
    &&& after.search_results@ == before.expected_hits()
    &&& after.search_is_current()
    &&& after == (App { search_results: after.search_results, search_cursor: 0, ..before })
}

impl App {
    /// The rows that a search of the view finds at this moment: those whose
    /// cell in the selected column contains the query; none where the
    /// selected column does not exist, the view has no row, or the column
    /// has no text.
    pub open spec fn expected_hits(self) -> Seq<usize> {
        let column = self.state.column_or_first();
        if column >= self.headers@.len() || frame_height(self.view) == 0 {
            Seq::empty()
        } else {
            match frame_text(self.view, self.headers@[column as int]@) {
                Some(cells) => search_hits(cells, self.search_query@),
                None => Seq::empty(),
            }
        }
    }

    /// The search results are those of the current view, column and query.
    pub open spec fn search_is_current(self) -> bool {
        &&& self.search_results@ == self.expected_hits()
        &&& self.search_in_view()
    }

    /// Every search result is a row of the view.
    pub open spec fn search_in_view(self) -> bool {
        forall|k: int|
            0 <= k < self.search_results@.len() ==> (#[trigger] self.search_results@[k])
                < frame_height(self.view)
    }

    /// Searches the view again: the results become the rows whose cell in
    /// the selected column contains the query, and the cursor goes back to
    /// the first of them.
    pub fn update_search(&mut self)
        ensures
            searched(*old(self), *final(self)),
            old(self).wf() ==> final(self).wf(),
    {
        let current_column = self.state.current_column();
        self.search_cursor = 0;
        if current_column >= self.headers.len() || self.view.height() == 0 {
            self.search_results = Vec::new();
            return ;
        }
        let cells = column_text(&self.view, self.headers[current_column].as_str());
        match cells {
            Some(c) => {
                proof {
                    lemma_search_hits_exact(column_view(c@), self.search_query@);
                }
                self.search_results = find_matches(&c, self.search_query.as_str());
            },
            None => {
                self.search_results = Vec::new();
            },
        }
    }
}

} // verus!
