//! The values that flow between the index, the cache and the caller.

use vstd::prelude::*;

verus! {

/// One ranked answer to a query.
///
/// The relevance score is kept as the bit pattern of a single-precision
/// number, so that it can be stored, compared for equality and handed on
/// without loss. Within one answer a higher score means a better match.
#[derive(Debug, PartialEq, Eq)]
pub struct SearchResult {
    title: String,
    path: String,
    score_bits: u32,
}

/// Mathematical model of a [`SearchResult`].
pub ghost struct SearchResultView {
    pub title: Seq<char>,
    pub path: Seq<char>,
    pub score_bits: u32,
}

impl View for SearchResult {
    type V = SearchResultView;

    closed spec fn view(&self) -> SearchResultView {
        SearchResultView { title: self.title@, path: self.path@, score_bits: self.score_bits }
    }
}

impl SearchResult {
    pub fn new(title: String, path: String, score_bits: u32) -> (r: Self)
        ensures
            r@ == (SearchResultView { title: title@, path: path@, score_bits }),
    {
        Self { title, path, score_bits }
    }

    pub fn title(&self) -> (r: &String)
        ensures
            r@ == self@.title,
    {
        &self.title
    }

    pub fn path(&self) -> (r: &String)
        ensures
            r@ == self@.path,
    {
        &self.path
    }

    /// The bit pattern of the relevance score.
    pub fn score(&self) -> (r: u32)
        ensures
            r == self@.score_bits,
    {
        self.score_bits
    }

    /// A copy with the same title, path and score.
    pub fn duplicate(&self) -> (r: Self)
        ensures
            r@ == self@,
    {
        Self { title: self.title.clone(), path: self.path.clone(), score_bits: self.score_bits }
    }
}

/// The model of a list of results: the model of each, in order.
pub open spec fn results_view(results: Seq<SearchResult>) -> Seq<SearchResultView> {
    results.map_values(|r: SearchResult| r@)
}

/// Copies a list of results, element by element.
pub fn duplicate_results(results: &Vec<SearchResult>) -> (r: Vec<SearchResult>)
    ensures
        results_view(r@) == results_view(results@),
{
    let mut out: Vec<SearchResult> = Vec::new();
    let mut i: usize = 0;
    while i < results.len()
        invariant
            i <= results.len(),
            out.len() == i,
            forall|k: int| 0 <= k < i ==> out[k]@ == results[k]@,
        decreases results.len() - i,
    {
        out.push(results[i].duplicate());
        i += 1;
    }
    assert(results_view(out@) =~= results_view(results@));
    out
}

} // verus!
